//! The pause-depth counter: execution may proceed only while nobody holds a
//! pause.

use vstd::prelude::*;

verus! {

/// Counts the pauses that are currently held. Several requesters may hold a
/// pause at once; each releases its own, and execution is paused for as long
/// as at least one is held.
#[derive(Clone, Copy, Debug)]
pub struct PauseArbiter {
    count: u64,
}

impl PauseArbiter {
    /// The number of pauses currently held.
    pub closed spec fn depth(&self) -> nat {
        self.count as nat
    }

    /// An arbiter with no pause held.
    pub fn new() -> (a: PauseArbiter)
        ensures
            a.depth() == 0,
    {
        PauseArbiter { count: 0 }
    }

    /// The depth never exceeds what the counter can hold.
    pub proof fn lemma_depth_is_bounded(self)
        ensures
            self.depth() <= u64::MAX,
    {
    }

    /// Registers one more pause.
    pub fn request_pause(&mut self)
        requires
            old(self).depth() < u64::MAX,
        ensures
            final(self).depth() == old(self).depth() + 1,
    {
        self.count = self.count + 1;
    }

    /// Gives back one pause. Releasing a pause that nobody holds is an error
    /// of the caller, so at least one must be held.
    pub fn release_pause(&mut self)
        requires
            old(self).depth() > 0,
        ensures
            final(self).depth() == old(self).depth() - 1,
    {
        self.count = self.count - 1;
    }

    /// Whether at least one pause is held.
    pub fn is_paused(&self) -> (paused: bool)
        ensures
            paused == (self.depth() > 0),
    {
        self.count > 0
    }

    /// The number of pauses currently held.
    pub fn pause_depth(&self) -> (d: u64)
        ensures
            d == self.depth(),
    {
        self.count
    }
}

/// One call on an arbiter.
pub enum PauseCall {
    Request,
    Release,
}

/// The depth after one call, as `request_pause` and `release_pause` leave it.
/// A release at depth zero is not a permitted call; the depth stays zero.
pub open spec fn depth_after_call(depth: nat, call: PauseCall) -> nat {
    match call {
        PauseCall::Request => depth + 1,
        PauseCall::Release => if depth > 0 {
            (depth - 1) as nat
        } else {
            0
        },
    }
}

/// The depth after a sequence of calls, made in order.
pub open spec fn depth_after_calls(depth: nat, calls: Seq<PauseCall>) -> nat
    decreases calls.len(),
{
    if calls.len() == 0 {
        depth
    } else {
        depth_after_call(depth_after_calls(depth, calls.drop_last()), calls.last())
    }
}

/// How many of the calls are requests.
pub open spec fn requests_in(calls: Seq<PauseCall>) -> nat
    decreases calls.len(),
{
    if calls.len() == 0 {
        0
    } else {
        requests_in(calls.drop_last()) + if calls.last() is Request {
            1nat
        } else {
            0nat
        }
    }
}

/// How many of the calls are releases.
pub open spec fn releases_in(calls: Seq<PauseCall>) -> nat
    decreases calls.len(),
{
    if calls.len() == 0 {
        0
    } else {
        releases_in(calls.drop_last()) + if calls.last() is Release {
            1nat
        } else {
            0nat
        }
    }
}

/// Every release in the sequence gives back a pause that an earlier request
/// of the sequence took: no prefix holds more releases than requests.
pub open spec fn releases_are_matched(calls: Seq<PauseCall>) -> bool {
    forall|n: int| 0 <= n <= calls.len() ==> releases_in(#[trigger] calls.take(n)) <= requests_in(calls.take(n))
}

/// However requests and their matching releases interleave, after each call
/// the depth of an arbiter that started with no pause held is the number of
/// requests not yet released. So the arbiter is paused exactly while such a
/// request is outstanding.
pub proof fn lemma_depth_counts_outstanding_requests(calls: Seq<PauseCall>, n: int)
    requires
        releases_are_matched(calls),
        0 <= n <= calls.len(),
    ensures
        depth_after_calls(0, calls.take(n)) == requests_in(calls.take(n)) - releases_in(calls.take(n)),
        depth_after_calls(0, calls.take(n)) > 0 <==> requests_in(calls.take(n)) > releases_in(calls.take(n)),
    decreases n,
{
    if n > 0 {
        lemma_depth_counts_outstanding_requests(calls, n - 1);
        assert(calls.take(n).drop_last() =~= calls.take(n - 1));
        assert(releases_in(calls.take(n)) <= requests_in(calls.take(n)));
        assert(releases_in(calls.take(n - 1)) <= requests_in(calls.take(n - 1)));
    }
}

/// Once as many releases as requests have been made, each release matched,
/// no pause is held.
pub proof fn lemma_balanced_calls_end_unpaused(calls: Seq<PauseCall>)
    requires
        releases_are_matched(calls),
        requests_in(calls) == releases_in(calls),
    ensures
        depth_after_calls(0, calls) == 0,
{
    assert(calls.take(calls.len() as int) =~= calls);
    lemma_depth_counts_outstanding_requests(calls, calls.len() as int);
}

} // verus!
