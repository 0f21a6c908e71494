//! The set of launched instance ids, and the decisions of the fork and
//! shutdown routes that read or fill it.
use vstd::prelude::*;

verus! {

/// The ids of launched instances. Entries are never pruned: terminating an
/// instance leaves its id in place.
pub struct Registry {
    ids: Vec<u32>,
}

impl View for Registry {
    type V = Set<u32>;

    closed spec fn view(&self) -> Set<u32> {
        self.ids@.to_set()
    }
}

impl Registry {
    /// No id is held twice.
    pub closed spec fn wf(&self) -> bool {
        self.ids@.no_duplicates()
    }

    /// The ids in the order they were first inserted.
    pub closed spec fn order(&self) -> Seq<u32> {
        self.ids@
    }

    /// An empty registry.
    pub fn new() -> (r: Registry)
        ensures
            r.wf(),
            r@ == Set::<u32>::empty(),
    {
        let r = Registry { ids: Vec::new() };
        assert(r.ids@.to_set() =~= Set::<u32>::empty());
        r
    }

    /// Whether `id` is registered.
    pub fn contains(&self, id: u32) -> (r: bool)
        ensures
            r == self@.contains(id),
    {
        let mut i: usize = 0;
        while i < self.ids.len()
            invariant
                0 <= i <= self.ids@.len(),
                forall|j: int| 0 <= j < i ==> self.ids@[j] != id,
            decreases self.ids@.len() - i,
        {
            if self.ids[i] == id {
                assert(self.ids@.to_set().contains(self.ids@[i as int]));
                return true;
            }
            i = i + 1;
        }
        assert(!self.ids@.contains(id));
        false
    }

    /// Adds `id` if it is absent; inserting it again changes nothing.
    pub fn insert(&mut self, id: u32)
        requires
            old(self).wf(),
        ensures
            final(self).wf(),
            final(self)@ == old(self)@.insert(id),
    {
        if !self.contains(id) {
            proof {
                vstd::seq_lib::lemma_no_dup_in_concat(self.ids@, seq![id]);
            }
            self.ids.push(id);
            proof {
                old(self).ids@.lemma_push_to_set_commute(id);
            }
            assert(self.ids@ =~= old(self).ids@ + seq![id]);
            assert(self.ids@.to_set() =~= old(self).ids@.to_set().insert(id));
        } else {
            assert(old(self)@.insert(id) =~= old(self)@);
        }
    }

    /// A copy of every registered id, each once.
    pub fn snapshot(&self) -> (r: Vec<u32>)
        requires
            self.wf(),
        ensures
            r@.to_set() == self@,
            r@.no_duplicates(),
            r@ == self.order(),
    {
        self.ids.clone()
    }

    /// Records the outcome of a launch: the spawned process id, or `0` when
    /// spawning failed. The id is registered either way and returned.
    pub fn record_launch(&mut self, spawned: Option<u32>) -> (r: u32)
        requires
            old(self).wf(),
        ensures
            r == launch_id(spawned),
            final(self).wf(),
            final(self)@ == old(self)@.insert(r),
    {
        let id = match spawned {
            Some(pid) => pid,
            None => 0,
        };
        self.insert(id);
        id
    }

    /// The process to terminate for a request to shut down `id`: `id` itself
    /// when it is registered, else none.
    pub fn shutdown_target(&self, id: u32) -> (r: Option<u32>)
        ensures
            r == target_of(self@, id),
    {
        if self.contains(id) {
            Some(id)
        } else {
            None
        }
    }

    /// The processes to terminate for a request to shut down every instance:
    /// the registered ids at the time of the call.
    pub fn shutdown_all_targets(&self) -> (r: Vec<u32>)
        requires
            self.wf(),
        ensures
            r@.to_set() == self@,
            r@.no_duplicates(),
    {
        self.snapshot()
    }
}

/// The id that a launch reports: the process id, or `0` for a failed spawn.
pub open spec fn launch_id(spawned: Option<u32>) -> u32 {
    match spawned {
        Some(pid) => pid,
        None => 0,
    }
}

/// The id that a shutdown request reports: the terminated id, or `0`.
pub open spec fn reply_id(target: Option<u32>) -> u32 {
    match target {
        Some(pid) => pid,
        None => 0,
    }
}

/// The id that a shutdown request reports for `target`.
pub fn shutdown_reply(target: Option<u32>) -> (r: u32)
    ensures
        r == reply_id(target),
{
    match target {
        Some(pid) => pid,
        None => 0,
    }
}

/// Every launch reports an id that is then registered, and the registry keeps
/// the ids it held before.
pub proof fn lemma_launch_registers(before: Registry, after: Registry, spawned: Option<u32>)
    requires
        after@ == before@.insert(launch_id(spawned)),
    ensures
        after@.contains(launch_id(spawned)),
        before@.subset_of(after@),
        spawned is Some ==> after@.contains(spawned->0),
{
}

/// The process that a request to shut down `id` terminates, given the
/// registered ids.
pub open spec fn target_of(ids: Set<u32>, id: u32) -> Option<u32> {
    if ids.contains(id) {
        Some(id)
    } else {
        None
    }
}

} // verus!
