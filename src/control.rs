//! The shared state of the control surface and the replies of its routes.
//! Process spawning, termination and network fetches are done by the caller,
//! which hands their outcomes in.
use vstd::prelude::*;
use crate::cache::{bytes_opt, DiscoveryCache, SlotView, Step, slot_after_begin, step_for};
use crate::discovery::{finish_fetch, rewritten, HealthState};
use crate::registry::{launch_id, reply_id, target_of, Registry};
use crate::text::{decimal, decimal_bytes};

verus! {

/// Everything the routes share: launched ids, the health flag, fetched
/// discovery documents and the configured external hostname.
pub struct AppContext {
    pub registry: Registry,
    pub health: HealthState,
    pub cache: DiscoveryCache,
    pub hostname: Vec<u8>,
}

impl AppContext {
    /// The parts' invariants.
    pub open spec fn wf(&self) -> bool {
        self.registry.wf() && self.cache.wf()
    }

    /// A fresh context: nothing launched, nothing fetched, healthy.
    pub fn new(hostname: Vec<u8>) -> (r: AppContext)
        ensures
            r.wf(),
            r.registry@ == Set::<u32>::empty(),
            r.health.healthy,
            forall|k: Option<Seq<u8>>| #[trigger] r.cache.slot(k) is None,
            r.hostname@ == hostname@,
    {
        AppContext {
            registry: Registry::new(),
            health: HealthState::new(),
            cache: DiscoveryCache::new(),
            hostname,
        }
    }

    /// The reply of a launch route: registers the launched id (`0` when
    /// spawning failed) and answers with it as decimal text.
    pub fn fork_reply(&mut self, spawned: Option<u32>) -> (r: Vec<u8>)
        requires
            old(self).wf(),
        ensures
            final(self).wf(),
            r@ == decimal(launch_id(spawned) as nat),
            final(self).registry@ == old(self).registry@.insert(launch_id(spawned)),
            final(self).health == old(self).health,
            final(self).cache == old(self).cache,
    {
        let id = self.registry.record_launch(spawned);
        decimal_bytes(id)
    }

    /// The plan of a request to shut down `id`: the process to terminate,
    /// if `id` is registered, and the reply, that id or `0`.
    pub fn shutdown_plan(&self, id: u32) -> (r: (Option<u32>, Vec<u8>))
        ensures
            r.0 == target_of(self.registry@, id),
            r.1@ == decimal(reply_id(target_of(self.registry@, id)) as nat),
    {
        let target = self.registry.shutdown_target(id);
        let reply = crate::registry::shutdown_reply(target);
        (target, decimal_bytes(reply))
    }

    /// The plan of a request to shut down every instance: every registered
    /// id, each once, and the reply `0`.
    pub fn shutdown_all_plan(&self) -> (r: (Vec<u32>, Vec<u8>))
        requires
            self.registry.wf(),
        ensures
            r.0@.to_set() == self.registry@,
            r.0@.no_duplicates(),
            r.1@ == decimal(0),
    {
        (self.registry.shutdown_all_targets(), decimal_bytes(0))
    }

    /// Asks the cache what a discovery request for `key` must do.
    pub fn discovery_step(&mut self, key: &Option<Vec<u8>>) -> (r: Step)
        requires
            old(self).wf(),
        ensures
            final(self).wf(),
            r@ == step_for(old(self).cache.slot(bytes_opt(*key))),
            final(self).cache.slot(bytes_opt(*key)) == slot_after_begin(
                old(self).cache.slot(bytes_opt(*key)),
            ),
            forall|k: Option<Seq<u8>>|
                k != bytes_opt(*key) ==> #[trigger] final(self).cache.slot(k) == old(
                    self,
                ).cache.slot(k),
            final(self).registry == old(self).registry,
            final(self).health == old(self).health,
    {
        self.cache.begin(key)
    }

    /// Finishes the fetch of `key`: `fetched` is the body the backend sent,
    /// or none when the request failed. Sets the health flag, rewrites the
    /// body for the configured hostname, keeps the outcome for every later
    /// caller of `key`, and returns it.
    pub fn discovery_done(&mut self, key: &Option<Vec<u8>>, fetched: Option<Vec<u8>>) -> (r:
        Option<Vec<u8>>)
        requires
            old(self).wf(),
        ensures
            final(self).wf(),
            final(self).health.healthy == (fetched is Some),
            fetched is None ==> r is None,
            fetched is Some ==> r is Some && r->0@ == rewritten(
                fetched->0@,
                old(self).hostname@,
            ),
            final(self).cache.slot(bytes_opt(*key)) == Some(SlotView::Ready(bytes_opt(r))),
            forall|k: Option<Seq<u8>>|
                k != bytes_opt(*key) ==> #[trigger] final(self).cache.slot(k) == old(
                    self,
                ).cache.slot(k),
            final(self).registry == old(self).registry,
            final(self).hostname == old(self).hostname,
    {
        let r = finish_fetch(&mut self.health, fetched, self.hostname.as_slice());
        let kept = match &r {
            Some(b) => Some(b.clone()),
            None => None,
        };
        self.cache.complete(key, kept);
        r
    }
}

/// Launching and then asking to shut down the id that the launch reported
/// terminates that process and confirms the same id; asking for an id that
/// is not registered terminates nothing and answers `0`.
pub proof fn lemma_fork_then_shutdown_reply(before: AppContext, after: AppContext, spawned: Option<u32>, unused: u32)
    requires
        after.registry@ == before.registry@.insert(launch_id(spawned)),
        !after.registry@.contains(unused),
    ensures
        target_of(after.registry@, launch_id(spawned)) == Some(launch_id(spawned)),
        decimal(reply_id(target_of(after.registry@, launch_id(spawned))) as nat) == decimal(
            launch_id(spawned) as nat,
        ),
        target_of(after.registry@, unused) is None,
        decimal(reply_id(target_of(after.registry@, unused)) as nat) == decimal(0),
{
}

} // verus!
