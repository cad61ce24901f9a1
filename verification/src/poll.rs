//! Decisions of the polling loop: a frame is drawn only when its sequence
//! number differs from the last one drawn, the flush time is reported for the
//! first draw and every fiftieth after it, and each cycle is padded with a
//! pause up to the polling interval.

use vstd::prelude::*;

verus! {

/// Every how many successful draws the flush time is reported.
pub const LOG_EVERY: u64 = 50;

/// State carried from one polling cycle to the next.
#[derive(Debug, Clone, Copy, PartialEq, Eq, Structural)]
pub struct PollState {
    /// Sequence number of the last frame handed to the panel, if any.
    pub last_seq: Option<u64>,
    /// Number of successful draws so far.
    pub render_count: u64,
}

/// The state after a frame with sequence number `seq` has been read, and
/// whether that frame is to be drawn.
pub open spec fn accept_step(st: PollState, seq: u64) -> (PollState, bool) {
    (PollState { last_seq: Some(seq), render_count: st.render_count }, st.last_seq != Some(seq))
}

/// The state after a successful draw, and whether its flush time is reported.
pub open spec fn render_step(st: PollState) -> (PollState, bool) {
    (
        PollState { last_seq: st.last_seq, render_count: (st.render_count + 1) as u64 },
        st.render_count % LOG_EVERY == 0,
    )
}

impl PollState {
    /// The state before the first cycle: nothing drawn yet.
    pub fn new() -> (st: PollState)
        ensures
            st.last_seq is None,
            st.render_count == 0,
    {
        PollState { last_seq: None, render_count: 0 }
    }

    /// Records that a frame with sequence number `seq` was read, and returns
    /// whether it is to be drawn: only when its number differs from the last
    /// frame's.
    pub fn accept_frame(&mut self, seq: u64) -> (draw: bool)
        ensures
            (*final(self), draw) == accept_step(*old(self), seq),
    {
        let draw: bool = match self.last_seq {
            Some(last) => last != seq,
            None => true,
        };
        if draw {
            self.last_seq = Some(seq);
        }
        draw
    }

    /// Records a successful draw, and returns whether its flush time is to
    /// be reported: for the first draw and every fiftieth after it.
    pub fn record_render(&mut self) -> (log: bool)
        requires
            old(self).render_count < u64::MAX,
        ensures
            (*final(self), log) == render_step(*old(self)),
    {
        let log: bool = self.render_count == 0 || self.render_count % LOG_EVERY == 0;
        self.render_count = self.render_count + 1;
        log
    }
}

/// The pause that ends a polling cycle: what is left of the interval, if the
/// cycle took less than the interval; no pause otherwise. Both in nanoseconds.
pub fn pause_after(elapsed_ns: u128, interval_ns: u128) -> (r: Option<u128>)
    ensures
        r == (if elapsed_ns < interval_ns {
            Some((interval_ns - elapsed_ns) as u128)
        } else {
            None
        }),
{
    if elapsed_ns < interval_ns {
        Some(interval_ns - elapsed_ns)
    } else {
        None
    }
}

/// The flush time is reported exactly on draws 0, 50, 100, ...: for every
/// count, the report happens iff the count is a multiple of 50; the count
/// then goes up by one and the last sequence number is kept.
pub proof fn lemma_report_every_fiftieth(st: PollState)
    requires
        st.render_count < u64::MAX,
    ensures
        render_step(st).1 <==> st.render_count % 50 == 0,
        render_step(st).0.render_count == st.render_count + 1,
        render_step(st).0.last_seq == st.last_seq,
{
}

/// Reading a frame draws it iff its sequence number differs from the last
/// one read; that number becomes the last one, and the draw count is kept.
pub proof fn lemma_draw_iff_seq_changed(st: PollState, seq: u64)
    ensures
        accept_step(st, seq).1 <==> st.last_seq != Some(seq),
        accept_step(st, seq).0.last_seq == Some(seq),
        accept_step(st, seq).0.render_count == st.render_count,
{
}

/// A frame is drawn once: reading the same sequence number again right after
/// it was accepted does not draw it a second time.
pub proof fn lemma_same_seq_not_redrawn(st: PollState, seq: u64)
    ensures
        !accept_step(accept_step(st, seq).0, seq).1,
{
}

/// A frame whose sequence number differs from the last one read is always drawn.
pub proof fn lemma_new_seq_drawn(st: PollState, seq: u64)
    requires
        st.last_seq != Some(seq),
    ensures
        accept_step(st, seq).1,
{
}

/// Reading frames never changes the number of draws, and drawing never
/// changes the last sequence number.
pub proof fn lemma_steps_touch_separate_fields(st: PollState, seq: u64)
    requires
        st.render_count < u64::MAX,
    ensures
        accept_step(st, seq).0.render_count == st.render_count,
        render_step(st).0.last_seq == st.last_seq,
{
}

} // verus!
