//! The frame/batch driver: the state machine that runs one frame.
//!
//! One presentation tick walks `Idle → Updating → BatchReady →
//! Recording → Submitted → Idle`.  Entering `Updating` produces the
//! update payload for the scheduler (frame index, last completed frame
//! index, the one-shot diagnostics flag); a scheduler failure drops the
//! frame and returns to `Idle` with the counters untouched; a
//! successful pass ends by advancing the completed-frame index to the
//! frame just submitted and the frame index by exactly one.  The gap
//! between the two counters bounds how many frames' worth of deferred
//! destruction may still be outstanding, so their discipline is what
//! makes deferred destruction safe.

use vstd::prelude::*;

verus! {

/// Where within the current tick the driver stands.
#[derive(Clone, Copy, Debug, PartialEq, Eq, Structural)]
pub enum DriverPhase {
    Idle,
    Updating,
    BatchReady,
    Recording,
    Submitted,
}

/// The update payload handed to the scheduler once per tick.
#[derive(Clone, Copy, Debug, PartialEq, Eq, Structural)]
pub struct UpdatePayload {
    /// The frame about to be built.
    pub frame_index: u64,
    /// The newest frame the GPU has fully completed, or `None` before
    /// the first frame was ever submitted.
    pub completed_frame_index: Option<u64>,
    /// Set only on the very first update of the process lifetime.
    pub enable_diagnostics: bool,
}

/// The driver's state across ticks.
#[derive(Clone, Copy, Debug, PartialEq, Eq, Structural)]
pub struct FrameDriver {
    pub frame_index: u64,
    pub completed_frame_index: Option<u64>,
    pub first_update_done: bool,
    pub phase: DriverPhase,
}

impl FrameDriver {
    /// The counter discipline: the completed frame, once there is one,
    /// is always strictly older than the frame being built — so the
    /// completed index never reaches past the frame index.
    pub open spec fn wf(self) -> bool {
        self.completed_frame_index matches Some(c) ==> c < self.frame_index
    }

    /// A fresh driver: nothing completed, frame zero up next.
    pub fn new() -> (d: FrameDriver)
        ensures
            d.frame_index == 0,
            d.completed_frame_index is None,
            !d.first_update_done,
            d.phase is Idle,
            d.wf(),
    {
        FrameDriver {
            frame_index: 0,
            completed_frame_index: None,
            first_update_done: false,
            phase: DriverPhase::Idle,
        }
    }

    /// Starts a tick: builds the scheduler's update payload and enters
    /// `Updating`.  Diagnostics are requested exactly once, on the
    /// first update of the process lifetime.
    pub fn begin_update(&mut self) -> (p: UpdatePayload)
        requires
            old(self).phase is Idle,
        ensures
            p.frame_index == old(self).frame_index,
            p.completed_frame_index == old(self).completed_frame_index,
            p.enable_diagnostics <==> !old(self).first_update_done,
            final(self).frame_index == old(self).frame_index,
            final(self).completed_frame_index == old(self).completed_frame_index,
            final(self).first_update_done,
            final(self).phase is Updating,
            old(self).wf() ==> final(self).wf(),
    {
        let p = UpdatePayload {
            frame_index: self.frame_index,
            completed_frame_index: self.completed_frame_index,
            enable_diagnostics: !self.first_update_done,
        };
        self.first_update_done = true;
        self.phase = DriverPhase::Updating;
        p
    }

    /// The scheduler's update succeeded and a batch layout is
    /// available.
    pub fn update_succeeded(&mut self)
        requires
            old(self).phase is Updating,
        ensures
            final(self).frame_index == old(self).frame_index,
            final(self).completed_frame_index == old(self).completed_frame_index,
            final(self).first_update_done == old(self).first_update_done,
            final(self).phase is BatchReady,
            old(self).wf() ==> final(self).wf(),
    {
        self.phase = DriverPhase::BatchReady;
    }

    /// The scheduler reported a failure: the frame is dropped, nothing
    /// is recorded or submitted this tick, and the counters stay put so
    /// the next tick retries the same frame.
    pub fn update_failed(&mut self)
        requires
            old(self).phase is Updating,
        ensures
            final(self).frame_index == old(self).frame_index,
            final(self).completed_frame_index == old(self).completed_frame_index,
            final(self).first_update_done == old(self).first_update_done,
            final(self).phase is Idle,
            old(self).wf() ==> final(self).wf(),
    {
        self.phase = DriverPhase::Idle;
    }

    /// Command recording for this frame's batches begins.
    pub fn begin_recording(&mut self)
        requires
            old(self).phase is BatchReady,
        ensures
            final(self).frame_index == old(self).frame_index,
            final(self).completed_frame_index == old(self).completed_frame_index,
            final(self).first_update_done == old(self).first_update_done,
            final(self).phase is Recording,
            old(self).wf() ==> final(self).wf(),
    {
        self.phase = DriverPhase::Recording;
    }

    /// Every batch's command buffer has been submitted, in the order
    /// the scheduler returned the batches.
    pub fn batches_submitted(&mut self)
        requires
            old(self).phase is Recording,
        ensures
            final(self).frame_index == old(self).frame_index,
            final(self).completed_frame_index == old(self).completed_frame_index,
            final(self).first_update_done == old(self).first_update_done,
            final(self).phase is Submitted,
            old(self).wf() ==> final(self).wf(),
    {
        self.phase = DriverPhase::Submitted;
    }

    /// Ends a successful tick: the submitted frame becomes the
    /// completed frame and the frame index advances by exactly one.
    pub fn finish_frame(&mut self)
        requires
            old(self).phase is Submitted,
            old(self).frame_index < u64::MAX,
        ensures
            final(self).frame_index == old(self).frame_index + 1,
            final(self).completed_frame_index == Some(old(self).frame_index),
            final(self).first_update_done == old(self).first_update_done,
            final(self).phase is Idle,
            final(self).wf(),
    {
        self.completed_frame_index = Some(self.frame_index);
        self.frame_index = self.frame_index + 1;
        self.phase = DriverPhase::Idle;
    }
}

/// The driver state after one successful cycle starting from `d`.
pub open spec fn spec_after_success_cycle(d: FrameDriver) -> FrameDriver {
    FrameDriver {
        frame_index: (d.frame_index + 1) as u64,
        completed_frame_index: Some(d.frame_index),
        first_update_done: true,
        phase: DriverPhase::Idle,
    }
}

/// The frame protocol: the completed index never passes the frame
/// index — it holds before and after every cycle — a successful cycle
/// advances the frame index by exactly one, and the completed index
/// never moves backwards.
pub proof fn lemma_cycle_counters(d: FrameDriver)
    requires
        d.wf(),
        d.frame_index < u64::MAX,
    ensures
        spec_after_success_cycle(d).wf(),
        spec_after_success_cycle(d).frame_index == d.frame_index + 1,
        spec_after_success_cycle(d).completed_frame_index matches Some(c2)
            ==> c2 <= spec_after_success_cycle(d).frame_index,
        d.completed_frame_index matches Some(c)
            ==> c < spec_after_success_cycle(d).completed_frame_index->Some_0,
{
}

} // verus!
