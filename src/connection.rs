//! Decisions of the loop that waits for the beacon node: probe, and on failure wait a
//! fixed delay and probe the same handle again, with no limit on the number of tries.
use vstd::prelude::*;

verus! {

/// Milliseconds to wait after a failed probe before the next one.
pub const RETRY_DELAY_MS: u64 = 2000;

/// What the waiting loop does after a probe.
#[derive(Clone, Copy, Debug, PartialEq, Eq)]
pub enum ConnectStep {
    /// The node answered: the loop ends and yields the handle.
    Connected,
    /// The node did not answer: wait this many milliseconds, then probe again.
    RetryAfter(u64),
}

/// Probes made so far and whether the node has answered, after one more probe.
pub open spec fn probe_step(s: (nat, bool), reachable: bool) -> (nat, bool) {
    if s.1 {
        s
    } else {
        (if s.0 + 1 > u64::MAX { u64::MAX as nat } else { s.0 + 1 }, reachable)
    }
}

/// The state after the loop has met the probe outcomes `outcomes` in turn; outcomes met
/// after the node answered are never asked for.
pub open spec fn run_probes(s: (nat, bool), outcomes: Seq<bool>) -> (nat, bool)
    decreases outcomes.len(),
{
    if outcomes.len() == 0 || s.1 {
        s
    } else {
        run_probes(probe_step(s, outcomes[0]), outcomes.drop_first())
    }
}

/// Holds the node handle while the loop waits for it to answer.
pub struct NodeConnector<N> {
    node: N,
    probes: u64,
    connected: bool,
}

impl<N> NodeConnector<N> {
    /// Probes made so far, and whether the node has answered.
    pub closed spec fn view(&self) -> (nat, bool) {
        (self.probes as nat, self.connected)
    }

    pub closed spec fn handle(&self) -> N {
        self.node
    }

    pub fn new(node: N) -> (r: Self)
        ensures
            r@ == (0nat, false),
            r.handle() == node,
    {
        NodeConnector { node, probes: 0, connected: false }
    }

    /// The handle to probe.
    pub fn node(&self) -> (r: &N)
        ensures
            *r == self.handle(),
    {
        &self.node
    }

    pub fn probes(&self) -> (r: u64)
        ensures
            r == self@.0,
    {
        self.probes
    }

    pub fn is_connected(&self) -> (r: bool)
        ensures
            r == self@.1,
    {
        self.connected
    }

    /// Records the outcome of one probe and says what the loop does next.
    pub fn record_probe(&mut self, reachable: bool) -> (r: ConnectStep)
        requires
            !old(self)@.1,
        ensures
            final(self)@ == probe_step(old(self)@, reachable),
            final(self).handle() == old(self).handle(),
            r == (if reachable { ConnectStep::Connected } else { ConnectStep::RetryAfter(RETRY_DELAY_MS) }),
    {
        self.probes = self.probes.saturating_add(1);
        self.connected = reachable;
        if reachable {
            ConnectStep::Connected
        } else {
            ConnectStep::RetryAfter(RETRY_DELAY_MS)
        }
    }

    /// The handle that was probed: the same one that the loop started with.
    pub fn into_node(self) -> (r: N)
        ensures
            r == self.handle(),
    {
        self.node
    }
}

/// Failures before the first success: `n` failed probes, then one that succeeds.
pub open spec fn fails_then_succeeds(n: nat) -> Seq<bool> {
    Seq::new(n, |i: int| false).push(true)
}

proof fn lemma_run_failures(k: nat, n: nat, rest: Seq<bool>)
    requires
        k <= n,
        n < u64::MAX,
    ensures
        run_probes((k, false), Seq::new((n - k) as nat, |i: int| false) + rest)
            == run_probes((n, false), rest),
    decreases n - k,
{
    let s = Seq::new((n - k) as nat, |i: int| false) + rest;
    if k < n {
        assert(s[0] == false);
        assert(s.drop_first() =~= Seq::new((n - (k + 1)) as nat, |i: int| false) + rest);
        lemma_run_failures(k + 1, n, rest);
    } else {
        assert(s =~= rest);
    }
}

/// A node that fails `n` probes and then answers is reached after exactly `n + 1`
/// probes; whatever would come after is never probed.
pub proof fn lemma_connects_after_failures(n: nat, later: Seq<bool>)
    requires
        n + 1 < u64::MAX,
    ensures
        run_probes((0nat, false), fails_then_succeeds(n) + later) == (n + 1, true),
{
    let tail = seq![true] + later;
    assert(fails_then_succeeds(n) + later =~= Seq::new(n, |i: int| false) + tail);
    lemma_run_failures(0, n, tail);
    assert(tail[0] == true);
    assert(run_probes(probe_step((n, false), true), tail.drop_first()) == (n + 1, true));
}

/// A node that never answers is never reached: after any number of failed probes the
/// loop is still waiting, having probed once per failure.
pub proof fn lemma_never_connects(n: nat)
    requires
        n < u64::MAX,
    ensures
        run_probes((0nat, false), Seq::new(n, |i: int| false)) == (n, false),
{
    lemma_run_failures(0, n, Seq::empty());
    assert(Seq::new(n, |i: int| false) + Seq::<bool>::empty() =~= Seq::new(n, |i: int| false));
}

} // verus!
