//! Single-flight memoisation of discovery fetches, keyed by the optional
//! target path. A key is fetched by the first caller; callers that come while
//! that fetch is in flight wait; once it completes, its outcome is kept for
//! the life of the cache and handed to every later caller.
use vstd::prelude::*;
use crate::text::bytes_eq;

verus! {

/// A key's slot: a fetch in flight, or its outcome.
pub enum Slot {
    Pending,
    Ready(Option<Vec<u8>>),
}

/// What a slot holds, as values.
pub enum SlotView {
    Pending,
    Ready(Option<Seq<u8>>),
}

impl View for Slot {
    type V = SlotView;

    open spec fn view(&self) -> SlotView {
        match self {
            Slot::Pending => SlotView::Pending,
            Slot::Ready(o) => SlotView::Ready(bytes_opt(*o)),
        }
    }
}

/// An optional byte string, as values.
pub open spec fn bytes_opt(o: Option<Vec<u8>>) -> Option<Seq<u8>> {
    match o {
        Some(v) => Some(v@),
        None => None,
    }
}

/// What a caller must do next.
pub enum Step {
    /// Fetch the document, then report the outcome with `complete`.
    Fetch,
    /// Another caller is fetching: wait for it, then ask again.
    Wait,
    /// The outcome is known.
    Done(Option<Vec<u8>>),
}

/// What a step says, as values.
pub enum StepView {
    Fetch,
    Wait,
    Done(Option<Seq<u8>>),
}

impl View for Step {
    type V = StepView;

    open spec fn view(&self) -> StepView {
        match self {
            Step::Fetch => StepView::Fetch,
            Step::Wait => StepView::Wait,
            Step::Done(o) => StepView::Done(bytes_opt(*o)),
        }
    }
}

/// The step that a caller is given for a key whose slot is `s`.
pub open spec fn step_for(s: Option<SlotView>) -> StepView {
    match s {
        None => StepView::Fetch,
        Some(SlotView::Pending) => StepView::Wait,
        Some(SlotView::Ready(o)) => StepView::Done(o),
    }
}

/// A key's slot after a caller has been given its step.
pub open spec fn slot_after_begin(s: Option<SlotView>) -> Option<SlotView> {
    match s {
        None => Some(SlotView::Pending),
        Some(v) => Some(v),
    }
}

/// The first slot of `k` in parallel sequences of keys and slots.
pub open spec fn lookup(keys: Seq<Option<Seq<u8>>>, slots: Seq<SlotView>, k: Option<Seq<u8>>) -> Option<
    SlotView,
>
    decreases keys.len(),
{
    if keys.len() == 0 || slots.len() == 0 {
        None
    } else if keys[0] == k {
        Some(slots[0])
    } else {
        lookup(keys.skip(1), slots.skip(1), k)
    }
}

proof fn lemma_lookup_found(keys: Seq<Option<Seq<u8>>>, slots: Seq<SlotView>, k: Option<Seq<u8>>, i: int)
    requires
        keys.len() == slots.len(),
        0 <= i < keys.len(),
        keys[i] == k,
        forall|j: int| 0 <= j < i ==> keys[j] != k,
    ensures
        lookup(keys, slots, k) == Some(slots[i]),
    decreases i,
{
    if i > 0 {
        assert(keys[0] != k);
        lemma_lookup_found(keys.skip(1), slots.skip(1), k, i - 1);
    }
}

proof fn lemma_lookup_absent(keys: Seq<Option<Seq<u8>>>, slots: Seq<SlotView>, k: Option<Seq<u8>>)
    requires
        keys.len() == slots.len(),
        forall|j: int| 0 <= j < keys.len() ==> keys[j] != k,
    ensures
        lookup(keys, slots, k) is None,
    decreases keys.len(),
{
    if keys.len() > 0 {
        assert(keys[0] != k);
        lemma_lookup_absent(keys.skip(1), slots.skip(1), k);
    }
}

proof fn lemma_lookup_push(
    keys: Seq<Option<Seq<u8>>>,
    slots: Seq<SlotView>,
    k: Option<Seq<u8>>,
    v: SlotView,
    k2: Option<Seq<u8>>,
)
    requires
        keys.len() == slots.len(),
        lookup(keys, slots, k) is None,
    ensures
        lookup(keys.push(k), slots.push(v), k2) == if k2 == k {
            Some(v)
        } else {
            lookup(keys, slots, k2)
        },
    decreases keys.len(),
{
    if keys.len() == 0 {
        assert(keys.push(k).skip(1) =~= Seq::<Option<Seq<u8>>>::empty());
        assert(keys.push(k)[0] == k);
        assert(slots.push(v)[0] == v);
        assert(lookup(keys.push(k).skip(1), slots.push(v).skip(1), k2) is None);
        assert(lookup(keys, slots, k2) is None);
    } else {
        assert(keys.push(k).skip(1) =~= keys.skip(1).push(k));
        assert(slots.push(v).skip(1) =~= slots.skip(1).push(v));
        assert(keys.push(k)[0] == keys[0]);
        assert(slots.push(v)[0] == slots[0]);
        assert(keys[0] != k);
        if keys[0] != k2 {
            lemma_lookup_push(keys.skip(1), slots.skip(1), k, v, k2);
            assert(lookup(keys.push(k), slots.push(v), k2) == lookup(
                keys.skip(1).push(k),
                slots.skip(1).push(v),
                k2,
            ));
        }
    }
}

proof fn lemma_lookup_update(
    keys: Seq<Option<Seq<u8>>>,
    slots: Seq<SlotView>,
    i: int,
    v: SlotView,
    k2: Option<Seq<u8>>,
)
    requires
        keys.len() == slots.len(),
        0 <= i < keys.len(),
        forall|j: int| 0 <= j < i ==> keys[j] != keys[i],
    ensures
        lookup(keys, slots.update(i, v), k2) == if k2 == keys[i] {
            Some(v)
        } else {
            lookup(keys, slots, k2)
        },
    decreases i,
{
    if i > 0 {
        assert(slots.update(i, v).skip(1) =~= slots.skip(1).update(i - 1, v));
        assert(keys[0] != keys[i]);
        if keys[0] != k2 {
            assert forall|j: int| 0 <= j < i - 1 implies #[trigger] keys.skip(1)[j] != keys.skip(1)[i - 1] by {
                assert(keys[j + 1] != keys[i]);
            }
            lemma_lookup_update(keys.skip(1), slots.skip(1), i - 1, v, k2);
        }
    } else {
        assert(slots.update(i, v).skip(1) =~= slots.skip(1));
    }
}

/// Whether two optional keys are equal.
fn key_eq(a: &Option<Vec<u8>>, b: &Option<Vec<u8>>) -> (r: bool)
    ensures
        r == (bytes_opt(*a) == bytes_opt(*b)),
{
    match (a, b) {
        (None, None) => true,
        (Some(x), Some(y)) => bytes_eq(x.as_slice(), y.as_slice()),
        _ => false,
    }
}

/// The discovery documents fetched so far, and the fetches in flight.
pub struct DiscoveryCache {
    keys: Vec<Option<Vec<u8>>>,
    slots: Vec<Slot>,
}

impl DiscoveryCache {
    pub closed spec fn key_views(&self) -> Seq<Option<Seq<u8>>> {
        self.keys@.map_values(|k: Option<Vec<u8>>| bytes_opt(k))
    }

    pub closed spec fn slot_views(&self) -> Seq<SlotView> {
        self.slots@.map_values(|s: Slot| s@)
    }

    /// The slot of key `k`, if any caller has asked for it.
    pub open spec fn slot(&self, k: Option<Seq<u8>>) -> Option<SlotView> {
        lookup(self.key_views(), self.slot_views(), k)
    }

    /// The two sequences run in parallel.
    pub closed spec fn wf(&self) -> bool {
        self.keys@.len() == self.slots@.len()
    }

    /// A cache in which no key has been asked for.
    pub fn new() -> (r: DiscoveryCache)
        ensures
            r.wf(),
            forall|k: Option<Seq<u8>>| #[trigger] r.slot(k) is None,
    {
        let r = DiscoveryCache { keys: Vec::new(), slots: Vec::new() };
        assert forall|k: Option<Seq<u8>>| #[trigger] r.slot(k) is None by {
            assert(r.key_views().len() == 0);
        }
        r
    }

    fn find(&self, key: &Option<Vec<u8>>) -> (r: Option<usize>)
        requires
            self.wf(),
        ensures
            match r {
                Some(i) => i < self.keys@.len() && self.key_views()[i as int] == bytes_opt(*key) && (forall|
                    j: int,
                | 0 <= j < i ==> self.key_views()[j] != bytes_opt(*key)),
                None => forall|j: int| 0 <= j < self.keys@.len() ==> self.key_views()[j] != bytes_opt(*key),
            },
    {
        let mut i: usize = 0;
        while i < self.keys.len()
            invariant
                0 <= i <= self.keys@.len(),
                forall|j: int| 0 <= j < i ==> self.key_views()[j] != bytes_opt(*key),
            decreases self.keys@.len() - i,
        {
            assert(self.key_views()[i as int] == bytes_opt(self.keys@[i as int]));
            if key_eq(&self.keys[i], key) {
                return Some(i);
            }
            i = i + 1;
        }
        None
    }

    /// Gives a caller of `key` its step: the first caller fetches and leaves
    /// the key in flight; later callers wait, or get the kept outcome.
    pub fn begin(&mut self, key: &Option<Vec<u8>>) -> (r: Step)
        requires
            old(self).wf(),
        ensures
            final(self).wf(),
            r@ == step_for(old(self).slot(bytes_opt(*key))),
            final(self).slot(bytes_opt(*key)) == slot_after_begin(old(self).slot(bytes_opt(*key))),
            forall|k: Option<Seq<u8>>|
                k != bytes_opt(*key) ==> #[trigger] final(self).slot(k) == old(self).slot(k),
    {
        match self.find(key) {
            Some(i) => {
                proof {
                    lemma_lookup_found(self.key_views(), self.slot_views(), bytes_opt(*key), i as int);
                }
                match &self.slots[i] {
                    Slot::Pending => Step::Wait,
                    Slot::Ready(o) => Step::Done(o.clone()),
                }
            },
            None => {
                proof {
                    lemma_lookup_absent(self.key_views(), self.slot_views(), bytes_opt(*key));
                    assert forall|k: Option<Seq<u8>>|
                        #[trigger] lookup(
                            self.key_views().push(bytes_opt(*key)),
                            self.slot_views().push(SlotView::Pending),
                            k,
                        ) == if k == bytes_opt(*key) {
                            Some(SlotView::Pending)
                        } else {
                            lookup(self.key_views(), self.slot_views(), k)
                        } by {
                        lemma_lookup_push(
                            self.key_views(),
                            self.slot_views(),
                            bytes_opt(*key),
                            SlotView::Pending,
                            k,
                        );
                    }
                }
                self.keys.push(key.clone());
                self.slots.push(Slot::Pending);
                assert(self.key_views() =~= old(self).key_views().push(bytes_opt(*key)));
                assert(self.slot_views() =~= old(self).slot_views().push(SlotView::Pending));
                Step::Fetch
            },
        }
    }

    /// Stores the outcome of the fetch of `key`; it is then handed to every
    /// caller of `key` for the life of the cache.
    pub fn complete(&mut self, key: &Option<Vec<u8>>, outcome: Option<Vec<u8>>)
        requires
            old(self).wf(),
        ensures
            final(self).wf(),
            final(self).slot(bytes_opt(*key)) == Some(SlotView::Ready(bytes_opt(outcome))),
            forall|k: Option<Seq<u8>>|
                k != bytes_opt(*key) ==> #[trigger] final(self).slot(k) == old(self).slot(k),
    {
        let ghost v = SlotView::Ready(bytes_opt(outcome));
        match self.find(key) {
            Some(i) => {
                proof {
                    assert forall|k: Option<Seq<u8>>|
                        #[trigger] lookup(self.key_views(), self.slot_views().update(i as int, v), k)
                            == if k == bytes_opt(*key) {
                            Some(v)
                        } else {
                            lookup(self.key_views(), self.slot_views(), k)
                        } by {
                        lemma_lookup_update(self.key_views(), self.slot_views(), i as int, v, k);
                    }
                }
                self.slots.set(i, Slot::Ready(outcome));
                assert(self.key_views() =~= old(self).key_views());
                assert(self.slot_views() =~= old(self).slot_views().update(i as int, v));
            },
            None => {
                proof {
                    lemma_lookup_absent(self.key_views(), self.slot_views(), bytes_opt(*key));
                    assert forall|k: Option<Seq<u8>>|
                        #[trigger] lookup(
                            self.key_views().push(bytes_opt(*key)),
                            self.slot_views().push(v),
                            k,
                        ) == if k == bytes_opt(*key) {
                            Some(v)
                        } else {
                            lookup(self.key_views(), self.slot_views(), k)
                        } by {
                        lemma_lookup_push(self.key_views(), self.slot_views(), bytes_opt(*key), v, k);
                    }
                }
                self.keys.push(key.clone());
                self.slots.push(Slot::Ready(outcome));
                assert(self.key_views() =~= old(self).key_views().push(bytes_opt(*key)));
                assert(self.slot_views() =~= old(self).slot_views().push(v));
            },
        }
    }
}

/// How many of `n` successive callers of one key are told to fetch, starting
/// from slot `s`, while no fetch completes.
pub open spec fn fetch_count(s: Option<SlotView>, n: nat) -> nat
    decreases n,
{
    if n == 0 {
        0
    } else {
        (if step_for(s) is Fetch {
            1nat
        } else {
            0nat
        }) + fetch_count(slot_after_begin(s), (n - 1) as nat)
    }
}

proof fn lemma_no_fetch_once_known(v: SlotView, n: nat)
    ensures
        fetch_count(Some(v), n) == 0,
    decreases n,
{
    if n > 0 {
        lemma_no_fetch_once_known(v, (n - 1) as nat);
    }
}

/// Any number of callers of a key that nobody has asked for yet cause exactly
/// one fetch; once that fetch completes, every caller is handed the same
/// outcome, byte for byte.
pub proof fn lemma_single_flight(n: nat, outcome: Option<Seq<u8>>)
    requires
        n >= 1,
    ensures
        fetch_count(None, n) == 1,
        step_for(Some(SlotView::Ready(outcome))) == StepView::Done(outcome),
        slot_after_begin(Some(SlotView::Ready(outcome))) == Some(SlotView::Ready(outcome)),
{
    lemma_no_fetch_once_known(SlotView::Pending, (n - 1) as nat);
}

} // verus!
