//! Per-frame bookkeeping owned by the adapter: the pending input batch and
//! the running frame clock.
//!
//! Each frame the embedding application adds the host's reported frame delta
//! to the clock and takes the pending batch, handing it to the GUI library's
//! begin-frame call; the batch it leaves behind is empty but keeps the
//! clock, so time keeps accumulating across frames.

use crate::events::{BatchView, RawInput};
use vstd::prelude::*;

verus! {

/// The clock value after one frame delta is added: the sum, capped at the
/// largest representable time.
pub open spec fn advanced_time(time_nanos: u64, delta_nanos: u64) -> u64 {
    if time_nanos + delta_nanos <= u64::MAX {
        (time_nanos + delta_nanos) as u64
    } else {
        u64::MAX
    }
}

/// The batch left behind once a frame consumes the pending input: no
/// events, no scroll, the clock untouched.
pub open spec fn consumed_batch<C>(b: BatchView<C>) -> BatchView<C> {
    BatchView { events: Seq::empty(), scroll_delta: None, time_nanos: b.time_nanos }
}

impl<C> RawInput<C> {
    /// Adds one frame's elapsed time to the batch clock, saturating at the
    /// largest representable time; events and scroll are untouched.
    pub fn advance_time(&mut self, delta_nanos: u64)
        ensures
            final(self)@ == (BatchView {
                time_nanos: advanced_time(old(self)@.time_nanos, delta_nanos),
                ..old(self)@
            }),
    {
        self.time_nanos = self.time_nanos.saturating_add(delta_nanos);
    }

    /// Hands the pending batch over for the frame that begins, leaving an
    /// empty batch that keeps the clock.
    pub fn take(&mut self) -> (taken: RawInput<C>)
        ensures
            taken@ == old(self)@,
            final(self)@ == consumed_batch(old(self)@),
    {
        let mut events: Vec<crate::events::GuiEvent<C>> = Vec::new();
        core::mem::swap(&mut self.events, &mut events);
        let mut scroll_delta: Option<crate::events::Vec2<C>> = None;
        core::mem::swap(&mut self.scroll_delta, &mut scroll_delta);
        let taken = RawInput { events, scroll_delta, time_nanos: self.time_nanos };
        proof {
            assert(self@ =~= consumed_batch(old(self)@));
        }
        taken
    }
}

/// The adapter-owned state threaded through the host's game loop: the
/// pending input batch with its clock.  The GUI context and the GPU
/// resources live with the external collaborators, outside this state.
#[derive(Clone, Debug, PartialEq)]
pub struct MainState<C> {
    /// The pending input batch for the next frame.
    pub input: RawInput<C>,
}

impl<C> MainState<C> {
    /// A fresh adapter: empty batch, clock at zero.
    pub fn new() -> (s: MainState<C>)
        ensures
            s.input@ == crate::events::empty_batch::<C>(),
    {
        MainState { input: RawInput::new() }
    }

    /// Begins a frame: advances the clock by the host's reported delta, then
    /// consumes the pending batch.  The returned batch carries the advanced
    /// clock and everything translated since the previous frame; the state
    /// keeps only the clock.
    pub fn begin_frame_batch(&mut self, delta_nanos: u64) -> (taken: RawInput<C>)
        ensures
            taken@ == (BatchView {
                time_nanos: advanced_time(old(self).input@.time_nanos, delta_nanos),
                ..old(self).input@
            }),
            final(self).input@ == consumed_batch(taken@),
    {
        self.input.advance_time(delta_nanos);
        self.input.take()
    }
}

} // verus!
