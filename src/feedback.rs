//! Newest-value-wins mailbox that carries tick deltas from the capture
//! interrupt to the feedback task.

use embassy_sync::blocking_mutex::raw::NoopRawMutex;
use embassy_sync::signal::Signal;
use vstd::prelude::*;

verus! {

/// Single-slot mailbox holding at most one unread value; a publish replaces
/// whatever was not yet read.
#[verifier::external_body]
pub struct FeedbackSignal {
    slot: Signal<NoopRawMutex, u32>,
}

/// The value that waits in the mailbox, if any.
pub uninterp spec fn pending_value(s: FeedbackSignal) -> Option<u32>;

/// Relies on embassy_sync's `Signal::new`: the state starts as `None`.
#[verifier::external_body]
fn empty_slot() -> (r: FeedbackSignal)
    ensures
        pending_value(r) == None::<u32>,
{
    FeedbackSignal { slot: Signal::new() }
}

/// Relies on embassy_sync's `Signal::signal`: the state becomes
/// `Signaled(v)` whatever it was before.
#[verifier::external_body]
fn store(s: &mut FeedbackSignal, v: u32)
    ensures
        pending_value(*final(s)) == Some(v),
{
    s.slot.signal(v)
}

/// Relies on embassy_sync's `Signal::try_take`: a `Signaled` value is
/// returned and the state cleared; any other state yields `None`.
#[verifier::external_body]
fn take(s: &mut FeedbackSignal) -> (r: Option<u32>)
    ensures
        r == pending_value(*old(s)),
        pending_value(*final(s)) == None::<u32>,
{
    s.slot.try_take()
}

/// Relies on embassy_sync's `Signal::signaled`: true exactly in the
/// `Signaled` state, which is left as it was.
#[verifier::external_body]
fn holds_value(s: &FeedbackSignal) -> (r: bool)
    ensures
        r == pending_value(*s).is_some(),
{
    s.slot.signaled()
}

/// The mailbox state after publishing each of `vs` in turn, starting from
/// `pending`, with no read in between.
pub open spec fn after_publishes(pending: Option<u32>, vs: Seq<u32>) -> Option<u32>
    decreases vs.len(),
{
    if vs.len() == 0 {
        pending
    } else {
        after_publishes(Some(vs[0]), vs.drop_first())
    }
}

/// Of any run of publishes with no read in between, only the last value is
/// left for the next read.
pub proof fn lemma_newest_value_wins(pending: Option<u32>, vs: Seq<u32>)
    requires
        vs.len() > 0,
    ensures
        after_publishes(pending, vs) == Some(vs.last()),
    decreases vs.len(),
{
    let rest = vs.drop_first();
    if vs.len() > 1 {
        lemma_newest_value_wins(Some(vs[0]), rest);
        assert(rest.last() == vs.last());
    } else {
        assert(rest.len() == 0);
        assert(after_publishes(Some(vs[0]), rest) == Some(vs[0]));
    }
}

impl FeedbackSignal {
    /// An empty mailbox.
    pub fn new() -> (r: FeedbackSignal)
        ensures
            pending_value(r) == None::<u32>,
    {
        empty_slot()
    }

    /// Stores `v`, replacing an unread value. Never blocks.
    pub fn publish(&mut self, v: u32)
        ensures
            pending_value(*final(self)) == after_publishes(pending_value(*old(self)), seq![v]),
            pending_value(*final(self)) == Some(v),
    {
        store(self, v);
        proof {
            let vs = seq![v];
            assert(vs.drop_first().len() == 0);
            assert(after_publishes(Some(v), vs.drop_first()) == Some(v));
        }
    }

    /// Takes the value published since the last read, if there is one, and
    /// leaves the mailbox empty.
    pub fn try_take(&mut self) -> (r: Option<u32>)
        ensures
            r == pending_value(*old(self)),
            pending_value(*final(self)) == None::<u32>,
    {
        take(self)
    }

    /// Whether a value waits to be read.
    pub fn is_pending(&self) -> (r: bool)
        ensures
            r == pending_value(*self).is_some(),
    {
        holds_value(self)
    }
}

} // verus!
