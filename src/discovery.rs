//! The discovery document path: loopback rewriting, the health flag that the
//! last fetch sets, and the single-flight cache keyed by target path.
use vstd::prelude::*;
use crate::text::{append_bytes, occurs_at, replace_all, replace_bytes};

verus! {

/// The loopback host marker that backends write into their discovery
/// documents.
pub open spec fn loopback() -> Seq<u8> {
    seq![49u8, 50u8, 55u8, 46u8, 48u8, 46u8, 48u8, 46u8, 49u8]
}

/// The discovery body that clients receive: with a hostname configured, every
/// loopback marker is replaced by it; with none, the body as it came.
pub open spec fn rewritten(body: Seq<u8>, hostname: Seq<u8>) -> Seq<u8> {
    if hostname.len() == 0 {
        body
    } else {
        replace_all(body, loopback(), hostname)
    }
}

fn loopback_bytes() -> (r: Vec<u8>)
    ensures
        r@ == loopback(),
{
    let r: Vec<u8> = vec![49u8, 50u8, 55u8, 46u8, 48u8, 46u8, 48u8, 46u8, 49u8];
    assert(r@ =~= loopback());
    r
}

/// Rewrites the loopback marker in a discovery body to `hostname`; an empty
/// hostname leaves the body unchanged.
pub fn modify_json_output(body: &[u8], hostname: &[u8]) -> (r: Vec<u8>)
    ensures
        r@ == rewritten(body@, hostname@),
{
    if hostname.len() == 0 {
        let mut copy: Vec<u8> = Vec::new();
        append_bytes(&mut copy, body);
        assert(copy@ =~= body@);
        copy
    } else {
        let pat = loopback_bytes();
        replace_bytes(body, pat.as_slice(), hostname)
    }
}

/// With no hostname configured the rewritten body is the raw body, byte for
/// byte; a body without the loopback marker is never changed.
pub proof fn lemma_rewrite_identity(body: Seq<u8>, hostname: Seq<u8>)
    ensures
        hostname.len() == 0 ==> rewritten(body, hostname) == body,
        (forall|i: int| 0 <= i < body.len() ==> !#[trigger] occurs_at(body, loopback(), i))
            ==> rewritten(body, hostname) == body,
    decreases body.len(),
{
    if body.len() > 0 && hostname.len() > 0 {
        if forall|i: int| 0 <= i < body.len() ==> !#[trigger] occurs_at(body, loopback(), i) {
            let t = body.skip(1);
            assert forall|i: int| 0 <= i < t.len() implies !#[trigger] occurs_at(t, loopback(), i) by {
                assert(!occurs_at(body, loopback(), i + 1));
                if i + 9 <= t.len() {
                    assert(t.subrange(i, i + 9) =~= body.subrange(i + 1, i + 10));
                }
            }
            lemma_rewrite_identity(t, hostname);
            assert(!occurs_at(body, loopback(), 0));
            if body.len() >= 9 {
                assert(body.take(9) =~= body.subrange(0, 9));
            }
            assert(body =~= seq![body[0]] + t);
        }
    }
}

/// Every loopback marker in the body, taken from the left, becomes the
/// hostname, and every other byte is kept in place and order.
pub proof fn lemma_rewrite_replaces(body: Seq<u8>, hostname: Seq<u8>)
    requires
        hostname.len() > 0,
        body.len() > 0,
    ensures
        occurs_at(body, loopback(), 0) ==> rewritten(body, hostname) == hostname + rewritten(
            body.skip(9),
            hostname,
        ),
        !occurs_at(body, loopback(), 0) ==> rewritten(body, hostname) == seq![body[0]]
            + rewritten(body.skip(1), hostname),
{
    if body.len() >= 9 {
        assert(body.take(9) =~= body.subrange(0, 9));
    }
}

/// The process-wide health flag: true while the most recent discovery fetch
/// reached its backend.
pub struct HealthState {
    pub healthy: bool,
}

impl HealthState {
    /// A flag that reads healthy until a fetch fails.
    pub fn new() -> (r: HealthState)
        ensures
            r.healthy,
    {
        HealthState { healthy: true }
    }

    /// Records the outcome of a discovery fetch.
    pub fn record_fetch(&mut self, reached: bool)
        ensures
            final(self).healthy == reached,
    {
        self.healthy = reached;
    }

    /// The status code and body of the health check.
    pub fn hc(&self) -> (r: (u16, &'static str))
        ensures
            r.0 == health_status(self.healthy),
            self.healthy ==> r.1@ == "healthy!"@,
            !self.healthy ==> r.1@ == "unhealthy!"@,
    {
        if self.healthy {
            (200, "healthy!")
        } else {
            (500, "unhealthy!")
        }
    }
}

/// The status code of the health check.
pub open spec fn health_status(healthy: bool) -> u16 {
    if healthy {
        200
    } else {
        500
    }
}

/// After a discovery fetch the health check answers 200 when that fetch
/// reached its backend and 500 when it failed, whatever the flag was before.
pub proof fn lemma_health_follows_last_fetch(before: HealthState, after: HealthState, fetched: Option<Seq<u8>>)
    requires
        after.healthy == (fetched is Some),
    ensures
        health_status(after.healthy) == (if fetched is Some {
            200u16
        } else {
            500u16
        }),
{
}

/// Finishes a discovery fetch: `fetched` is the body that the backend sent,
/// or none when the request failed. Sets the health flag and returns the body
/// rewritten for `hostname`.
pub fn finish_fetch(health: &mut HealthState, fetched: Option<Vec<u8>>, hostname: &[u8]) -> (r:
    Option<Vec<u8>>)
    ensures
        final(health).healthy == (fetched is Some),
        fetched is None ==> r is None,
        fetched is Some ==> r is Some && r->0@ == rewritten(fetched->0@, hostname@),
{
    match fetched {
        Some(body) => {
            health.record_fetch(true);
            Some(modify_json_output(body.as_slice(), hostname))
        },
        None => {
            health.record_fetch(false);
            None
        },
    }
}

/// The body that the discovery route answers with: the document, or an empty
/// body when the fetch failed.
pub fn discovery_body(doc: Option<Vec<u8>>) -> (r: Vec<u8>)
    ensures
        r@ == (match doc {
            Some(b) => b@,
            None => Seq::<u8>::empty(),
        }),
{
    match doc {
        Some(b) => b,
        None => Vec::new(),
    }
}

} // verus!
