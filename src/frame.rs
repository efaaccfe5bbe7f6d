use vstd::prelude::*;
use crate::buffer::BufferPlan;
use crate::event::Event;

verus! {

/// Progress of one capture attempt, updated only by frame events.
#[derive(Clone, Copy, Debug, PartialEq, Eq, Structural)]
pub struct FrameState {
    pub announced_width: u32,
    pub announced_height: u32,
    pub announced_stride: u32,
    pub buffer_done: bool,
    pub ready: bool,
    pub failed: bool,
}

impl FrameState {
    /// `ready` and `failed` exclude each other.
    pub open spec fn wf(&self) -> bool {
        !(self.ready && self.failed)
    }

    pub open spec fn is_terminal(&self) -> bool {
        self.ready || self.failed
    }

    /// The record that a frame event leaves behind. Once a terminal flag is
    /// set, no event changes the record.
    pub open spec fn after(self, e: Event) -> FrameState {
        if self.is_terminal() {
            self
        } else {
            match e {
                Event::BufferAnnounced { width, height, stride, .. } => FrameState {
                    announced_width: width,
                    announced_height: height,
                    announced_stride: stride,
                    ..self
                },
                Event::BufferDone => FrameState { buffer_done: true, ..self },
                Event::Ready => FrameState { ready: true, ..self },
                Event::Failed => FrameState { failed: true, ..self },
                _ => self,
            }
        }
    }

    /// A fresh record for an attempt on `plan`: until the server announces
    /// otherwise, the geometry is that of the buffer.
    pub fn new(plan: &BufferPlan) -> (s: FrameState)
        ensures
            s.wf(),
            s.announced_width == plan.width,
            s.announced_height == plan.height,
            s.announced_stride == plan.stride,
            !s.buffer_done,
            !s.ready,
            !s.failed,
    {
        FrameState {
            announced_width: plan.width,
            announced_height: plan.height,
            announced_stride: plan.stride,
            buffer_done: false,
            ready: false,
            failed: false,
        }
    }

    pub fn terminal(&self) -> (b: bool)
        ensures
            b == self.is_terminal(),
    {
        self.ready || self.failed
    }

    /// Applies one event to the record.
    pub fn apply(&mut self, e: &Event)
        requires
            old(self).wf(),
        ensures
            *final(self) == old(self).after(*e),
            final(self).wf(),
    {
        if self.ready || self.failed {
            return;
        }
        match e {
            Event::BufferAnnounced { width, height, stride, .. } => {
                self.announced_width = *width;
                self.announced_height = *height;
                self.announced_stride = *stride;
            },
            Event::BufferDone => {
                self.buffer_done = true;
            },
            Event::Ready => {
                self.ready = true;
            },
            Event::Failed => {
                self.failed = true;
            },
            _ => {},
        }
    }
}

/// A terminal record stays as it is, whatever events follow.
pub proof fn lemma_terminal_is_final(s: FrameState, e: Event)
    requires
        s.wf(),
        s.is_terminal(),
    ensures
        s.after(e) == s,
{
}

/// Applying any event keeps `ready` and `failed` exclusive.
pub proof fn lemma_after_wf(s: FrameState, e: Event)
    requires
        s.wf(),
    ensures
        s.after(e).wf(),
{
}

} // verus!
