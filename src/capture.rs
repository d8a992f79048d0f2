//! Interrupt-side state of the frame-sync capture timer.

use crate::feedback::{pending_value, FeedbackSignal};
use vstd::prelude::*;

verus! {

/// The modulus of the free-running 32-bit capture counter.
pub open spec fn counter_modulus() -> int {
    0x1_0000_0000
}

/// Ticks elapsed from `earlier` to `later` on a counter that wraps at 2^32.
pub open spec fn tick_delta(later: u32, earlier: u32) -> u32 {
    ((later as int - earlier as int) % counter_modulus()) as u32
}

/// Difference of two absolute capture values modulo 2^32; a `later` below
/// `earlier` means the counter wrapped in between.
pub fn wrapping_subtract(later: u32, earlier: u32) -> (r: u32)
    ensures
        r == tick_delta(later, earlier),
        (earlier as int + r as int) % counter_modulus() == later as int,
        earlier <= later ==> r == later - earlier,
        later < earlier ==> r as int == later as int + counter_modulus() - earlier as int,
{
    let r = later.wrapping_sub(earlier);
    assert(r == tick_delta(later, earlier));
    r
}

/// One capture event on the counters `last` (tick value at the window's
/// start) and `count` (pulses seen): the new counters and the delta published.
pub open spec fn capture_step(last: u32, count: nat, period: nat, ticks: u32) -> (u32, nat, Option<u32>) {
    if count + 1 >= period {
        (ticks, 0, Some(tick_delta(ticks, last)))
    } else {
        (last, count + 1, None)
    }
}

/// The deltas published, in order, while `captures` arrive one after another
/// starting from the counters `last` and `count`.
pub open spec fn published_over(last: u32, count: nat, period: nat, captures: Seq<u32>) -> Seq<u32>
    decreases captures.len(),
{
    if captures.len() == 0 {
        Seq::empty()
    } else {
        let (l, c, p) = capture_step(last, count, period, captures[0]);
        let rest = published_over(l, c, period, captures.drop_first());
        match p {
            Some(d) => seq![d] + rest,
            None => rest,
        }
    }
}

/// A window that starts at tick value `last` with `count` pulses already seen
/// publishes nothing until the pulse that completes it, and then exactly one
/// delta: the ticks elapsed from `last` to that pulse.
pub proof fn lemma_one_publish_per_window(last: u32, count: nat, period: nat, captures: Seq<u32>)
    requires
        count < period,
        captures.len() == period - count,
    ensures
        published_over(last, count, period, captures) == seq![tick_delta(captures.last(), last)],
    decreases captures.len(),
{
    let rest = captures.drop_first();
    if captures.len() == 1 {
        assert(rest.len() == 0);
        assert(published_over(captures[0], 0, period, rest) == Seq::<u32>::empty());
        assert(seq![tick_delta(captures[0], last)] + Seq::<u32>::empty() =~= seq![
            tick_delta(captures[0], last),
        ]);
    } else {
        lemma_one_publish_per_window(last, count + 1, period, rest);
        assert(rest.last() == captures.last());
    }
}

/// Counters that only the capture interrupt touches: the absolute tick value
/// at the end of the last window and the pulses seen since then.
pub struct CaptureState {
    last_ticks: u32,
    frame_count: usize,
    refresh_period: usize,
}

impl CaptureState {
    /// The window has at least one pulse and the count lies inside it.
    pub open spec fn wf(&self) -> bool {
        &&& 1 <= self.refresh_period_spec()
        &&& self.frame_count_spec() < self.refresh_period_spec()
    }

    pub closed spec fn last_ticks_spec(&self) -> u32 {
        self.last_ticks
    }

    pub closed spec fn frame_count_spec(&self) -> nat {
        self.frame_count as nat
    }

    pub closed spec fn refresh_period_spec(&self) -> nat {
        self.refresh_period as nat
    }

    /// State at start-up: no pulse seen, tick reference zero.
    pub fn new(refresh_period: usize) -> (r: CaptureState)
        requires
            1 <= refresh_period,
        ensures
            r.wf(),
            r.last_ticks_spec() == 0,
            r.frame_count_spec() == 0,
            r.refresh_period_spec() == refresh_period,
    {
        CaptureState { last_ticks: 0, frame_count: 0, refresh_period }
    }

    /// Handles one capture event with the latched counter value `ticks`.
    /// The pulse that completes a window yields the ticks elapsed over the
    /// window, starts the next window at `ticks` and resets the count.
    pub fn on_capture(&mut self, ticks: u32) -> (r: Option<u32>)
        requires
            old(self).wf(),
        ensures
            final(self).wf(),
            final(self).refresh_period_spec() == old(self).refresh_period_spec(),
            (final(self).last_ticks_spec(), final(self).frame_count_spec(), r) == capture_step(
                old(self).last_ticks_spec(),
                old(self).frame_count_spec(),
                old(self).refresh_period_spec(),
                ticks,
            ),
            old(self).frame_count_spec() + 1 == old(self).refresh_period_spec() ==> {
                &&& r == Some(tick_delta(ticks, old(self).last_ticks_spec()))
                &&& final(self).last_ticks_spec() == ticks
                &&& final(self).frame_count_spec() == 0
            },
            old(self).frame_count_spec() + 1 < old(self).refresh_period_spec() ==> {
                &&& r == None::<u32>
                &&& final(self).last_ticks_spec() == old(self).last_ticks_spec()
                &&& final(self).frame_count_spec() == old(self).frame_count_spec() + 1
            },
    {
        self.frame_count = self.frame_count + 1;
        if self.frame_count >= self.refresh_period {
            self.frame_count = 0;
            let delta = wrapping_subtract(ticks, self.last_ticks);
            self.last_ticks = ticks;
            Some(delta)
        } else {
            None
        }
    }

    /// The pulse about to come completes the current window.
    pub open spec fn window_closes(&self) -> bool {
        self.frame_count_spec() + 1 == self.refresh_period_spec()
    }

    /// One run of the capture interrupt. `capture` holds the latched counter
    /// value when the capture-event flag was set and is `None` when only the
    /// trigger flag was. A completed window's delta goes to `signal`,
    /// replacing an unread one; otherwise `signal` is left alone.
    pub fn on_interrupt(&mut self, capture: Option<u32>, signal: &mut FeedbackSignal) -> (published:
        Option<u32>)
        requires
            old(self).wf(),
        ensures
            final(self).wf(),
            final(self).refresh_period_spec() == old(self).refresh_period_spec(),
            capture is None ==> {
                &&& published == None::<u32>
                &&& final(self).last_ticks_spec() == old(self).last_ticks_spec()
                &&& final(self).frame_count_spec() == old(self).frame_count_spec()
            },
            capture is Some && old(self).window_closes() ==> {
                &&& published == Some(tick_delta(capture->0, old(self).last_ticks_spec()))
                &&& final(self).last_ticks_spec() == capture->0
                &&& final(self).frame_count_spec() == 0
            },
            capture is Some && !old(self).window_closes() ==> {
                &&& published == None::<u32>
                &&& final(self).last_ticks_spec() == old(self).last_ticks_spec()
                &&& final(self).frame_count_spec() == old(self).frame_count_spec() + 1
            },
            published is Some ==> pending_value(*final(signal)) == published,
            published is None ==> *final(signal) == *old(signal),
    {
        match capture {
            Some(ticks) => {
                let published = self.on_capture(ticks);
                if let Some(delta) = published {
                    signal.publish(delta);
                }
                published
            },
            None => None,
        }
    }

    /// The absolute tick value at the start of the current window.
    pub fn last_ticks(&self) -> (r: u32)
        ensures
            r == self.last_ticks_spec(),
    {
        self.last_ticks
    }

    /// Pulses seen in the current window.
    pub fn frame_count(&self) -> (r: usize)
        ensures
            r == self.frame_count_spec(),
    {
        self.frame_count
    }

    /// Pulses per window.
    pub fn refresh_period(&self) -> (r: usize)
        ensures
            r == self.refresh_period_spec(),
    {
        self.refresh_period
    }
}

} // verus!
