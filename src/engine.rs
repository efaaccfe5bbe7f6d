use vstd::prelude::*;
use crate::buffer::{buffer_fits, plan_buffer, BufferPlan};
use crate::encode::{encode_frame, frame_fits, packed_rows, png_rgba8};
use crate::event::Event;
use crate::format::{candidate, candidate_at, CANDIDATE_COUNT};
use crate::frame::FrameState;
use crate::region::CaptureRegion;
use crate::registry::{bind_version, interface_of, BindRequest, CapabilityRegistry};

verus! {

/// Registry round-trips made before the capability check gives up.
pub const MAX_ROUND_TRIPS: u32 = 5;

/// Polls of the event queue made for one attempt before it times out.
pub const MAX_POLLS: u32 = 50;

/// Pause between two polls of the event queue, in milliseconds.
pub const POLL_INTERVAL_MS: u32 = 100;

/// The failures that end a capture.
#[derive(Clone, Copy, Debug, PartialEq, Eq, Structural)]
pub enum CaptureError {
    /// The compositor offers no frame-capture manager, no shared-memory
    /// allocator or no output.
    ProtocolUnavailable,
    /// Every candidate format failed or timed out.
    AllFormatsExhausted,
    /// The frame was captured but could not be encoded.
    EncodingFailure,
}

/// How an attempt that held a buffer ended. An attempt whose buffer could
/// not be allocated holds none, and is reported by `Event::AllocationFailed`.
#[derive(Clone, Copy, Debug, PartialEq, Eq, Structural)]
pub enum AttemptOutcome {
    /// The frame was delivered.
    Captured,
    /// The server rejected the capture.
    FrameCaptureFailed,
    /// No terminal event came within the poll bound.
    TimedOut,
}

/// What the engine asks its caller to do next.
#[derive(Debug)]
pub enum Action {
    /// Nothing to do beyond delivering further events.
    Nothing,
    /// Make one registry round-trip, delivering the announcements it brings.
    RoundTrip,
    /// Bind a global object.
    Bind(BindRequest),
    /// Create and map a shared buffer of this shape, wrap it in a pool and
    /// create a protocol buffer from it at offset zero.
    Allocate(BufferPlan),
    /// Request a capture of `region` from `output` into the buffer.
    Capture { output: u32, region: CaptureRegion },
    /// Wait `delay_ms`, then dispatch the pending events of the queue.
    Poll { delay_ms: u32 },
    /// Deliver the contents of the mapped buffer.
    ReadPixels,
    /// Release the buffer of the attempt, which ended as given.
    Release(AttemptOutcome),
    /// The capture is over with this result.
    Finish(Result<Vec<u8>, CaptureError>),
}

/// Where a capture stands.
#[derive(Clone, Copy, Debug, PartialEq, Eq, Structural)]
pub enum Phase {
    Created,
    Enumerating,
    Allocating,
    Capturing,
    Polling,
    Reading,
    Releasing,
    Finished,
}

/// The state of a capture as contracts see it.
pub ghost struct EngineView {
    pub phase: Phase,
    pub region: CaptureRegion,
    pub registry: (Option<u32>, Option<u32>, Seq<u32>),
    pub round_trips: nat,
    pub attempt: nat,
    pub plan: BufferPlan,
    pub frame: FrameState,
    pub polls: nat,
    pub holds_buffer: bool,
    pub allocations: nat,
    pub releases: nat,
    pub pending: Option<Result<Seq<u8>, CaptureError>>,
}

pub open spec fn registry_complete(r: (Option<u32>, Option<u32>, Seq<u32>)) -> bool {
    &&& r.0 is Some
    &&& r.1 is Some
    &&& r.2.len() > 0
}

pub open spec fn result_view(r: Result<Vec<u8>, CaptureError>) -> Result<Seq<u8>, CaptureError> {
    match r {
        Ok(v) => Ok(v@),
        Err(e) => Err(e),
    }
}

/// The plan of candidate `i` for a region.
pub open spec fn plan_for(region: CaptureRegion, i: nat) -> BufferPlan {
    BufferPlan {
        format: candidate(i as int),
        width: region.width,
        height: region.height,
        stride: (region.width * 4) as u32,
        size: (region.width * 4 * region.height) as u32,
    }
}

impl EngineView {
    /// The engine's invariant.
    pub open spec fn wf(self) -> bool {
        &&& self.region.is_valid()
        &&& self.frame.wf()
        &&& self.polls <= MAX_POLLS
        &&& self.attempt < CANDIDATE_COUNT
        &&& self.allocations <= self.attempt + (if self.phase is Created || self.phase is Enumerating
            || self.phase is Allocating { 0nat } else { 1nat })
        &&& self.round_trips <= MAX_ROUND_TRIPS
        &&& self.allocations == self.releases + (if self.holds_buffer { 1nat } else { 0nat })
        &&& self.holds_buffer <==> (self.phase is Capturing || self.phase is Polling
            || self.phase is Reading || self.phase is Releasing)
        &&& (self.phase is Created ==> self.round_trips == 0)
        &&& (self.phase is Created || self.phase is Enumerating) ==> self.allocations == 0
            && self.attempt == 0 && self.round_trips < MAX_ROUND_TRIPS
        &&& (self.phase is Allocating || self.holds_buffer) ==> {
            &&& registry_complete(self.registry)
            &&& self.plan == plan_for(self.region, self.attempt)
            &&& self.plan.wf()
        }
        &&& self.phase is Reading ==> self.frame.ready
        &&& self.allocations > 0 ==> registry_complete(self.registry)
        &&& (self.phase is Capturing || self.phase is Polling) ==> self.polls < MAX_POLLS
        &&& self.pending is Some ==> self.phase is Releasing
    }

    /// The same engine with another phase.
    pub open spec fn with_phase(self, phase: Phase) -> EngineView {
        EngineView { phase, ..self }
    }

    /// Starting attempt `i`: ask for the buffer of candidate `i`, or finish
    /// when no candidate is left or no buffer of the region can exist.
    pub open spec fn begins_attempt(self, i: nat, post: EngineView, a: Action) -> bool {
        if i < CANDIDATE_COUNT && buffer_fits(self.region.width, self.region.height) {
            &&& post == EngineView {
                phase: Phase::Allocating,
                attempt: i,
                plan: plan_for(self.region, i),
                ..self
            }
            &&& a matches Action::Allocate(p) && p == plan_for(self.region, i)
        } else {
            &&& post == EngineView { phase: Phase::Finished, ..self }
            &&& a matches Action::Finish(r) && r == Err::<Vec<u8>, CaptureError>(
                CaptureError::AllFormatsExhausted,
            )
        }
    }

    /// The pending result after reading `pixels` from the buffer: the PNG of
    /// the rows at the announced geometry; an encoding failure exactly where
    /// that geometry leaves the buffer or has no pixel.
    pub open spec fn read_result(self, pixels: Seq<u8>, r: Result<Seq<u8>, CaptureError>) -> bool {
        let (w, h, s) = (
            self.frame.announced_width,
            self.frame.announced_height,
            self.frame.announced_stride,
        );
        match r {
            Ok(img) => frame_fits(pixels.len(), w, h, s) && w > 0 && h > 0 && img == png_rgba8(
                packed_rows(pixels, w as int, s as int, h as nat),
                w,
                h,
            ),
            Err(e) => e == CaptureError::EncodingFailure && !(frame_fits(pixels.len(), w, h, s) && w
                > 0 && h > 0),
        }
    }

    /// Every transition of a capture: the state `post` and action `a` that
    /// event `e` leads to from `self`.
    pub open spec fn transition(self, e: Event, post: EngineView, a: Action) -> bool {
        let unchanged = post == self && a is Nothing;
        if self.phase is Finished {
            unchanged
        } else {
            match e {
                Event::Started => if self.phase is Created {
                    post == self.with_phase(Phase::Enumerating) && a is RoundTrip
                } else {
                    unchanged
                },
                Event::GlobalAnnounced { interface, name, .. } => {
                    let kind = interface_of(interface@);
                    let registry = CapabilityRegistry::after_global(self.registry, kind, name);
                    &&& post == EngineView { registry, ..self }
                    &&& if registry == self.registry {
                        a is Nothing
                    } else {
                        a matches Action::Bind(b) && b == BindRequest {
                            name,
                            interface: kind,
                            version: bind_version(kind),
                        }
                    }
                },
                Event::RoundTripDone => if self.phase is Enumerating {
                    let counted = EngineView { round_trips: self.round_trips + 1, ..self };
                    if registry_complete(self.registry) {
                        counted.begins_attempt(0, post, a)
                    } else if counted.round_trips >= MAX_ROUND_TRIPS {
                        &&& post == counted.with_phase(Phase::Finished)
                        &&& a matches Action::Finish(r) && r == Err::<Vec<u8>, CaptureError>(
                            CaptureError::ProtocolUnavailable,
                        )
                    } else {
                        post == counted && a is RoundTrip
                    }
                } else {
                    unchanged
                },
                Event::BufferAllocated => if self.phase is Allocating {
                    &&& post == EngineView {
                        phase: Phase::Capturing,
                        holds_buffer: true,
                        allocations: self.allocations + 1,
                        polls: 0,
                        frame: FrameState {
                            announced_width: self.plan.width,
                            announced_height: self.plan.height,
                            announced_stride: self.plan.stride,
                            buffer_done: false,
                            ready: false,
                            failed: false,
                        },
                        ..self
                    }
                    &&& a matches Action::Capture { output, region } && output == self.registry.2[0]
                        && region == self.region
                } else {
                    unchanged
                },
                Event::AllocationFailed => if self.phase is Allocating {
                    self.begins_attempt(self.attempt + 1, post, a)
                } else {
                    unchanged
                },
                Event::CaptureIssued => if self.phase is Capturing {
                    &&& post == self.with_phase(Phase::Polling)
                    &&& a matches Action::Poll { delay_ms } && delay_ms == 0
                } else {
                    unchanged
                },
                Event::BufferAnnounced { .. } | Event::BufferDone | Event::Ready | Event::Failed => {
                    if self.phase is Polling {
                        post == EngineView { frame: self.frame.after(e), ..self } && a is Nothing
                    } else {
                        unchanged
                    }
                },
                Event::PollElapsed => if self.phase is Polling {
                    let counted = EngineView { polls: self.polls + 1, ..self };
                    if self.frame.ready {
                        post == counted.with_phase(Phase::Reading) && a is ReadPixels
                    } else if self.frame.failed {
                        &&& post == counted.with_phase(Phase::Releasing)
                        &&& a matches Action::Release(o) && o == AttemptOutcome::FrameCaptureFailed
                    } else if counted.polls >= MAX_POLLS {
                        &&& post == counted.with_phase(Phase::Releasing)
                        &&& a matches Action::Release(o) && o == AttemptOutcome::TimedOut
                    } else {
                        &&& post == counted
                        &&& a matches Action::Poll { delay_ms } && delay_ms == POLL_INTERVAL_MS
                    }
                } else {
                    unchanged
                },
                Event::PixelsRead(pixels) => if self.phase is Reading {
                    &&& post.pending matches Some(r) && self.read_result(pixels@, r)
                    &&& post == EngineView {
                        phase: Phase::Releasing,
                        pending: post.pending,
                        ..self
                    }
                    &&& a matches Action::Release(o) && o == AttemptOutcome::Captured
                } else {
                    unchanged
                },
                Event::Released => if self.phase is Releasing {
                    let freed = EngineView {
                        holds_buffer: false,
                        releases: self.releases + 1,
                        pending: None,
                        ..self
                    };
                    match self.pending {
                        Some(r) => {
                            &&& post == freed.with_phase(Phase::Finished)
                            &&& a matches Action::Finish(fin) && result_view(fin) == r
                        },
                        None => freed.begins_attempt(self.attempt + 1, post, a),
                    }
                } else {
                    unchanged
                },
            }
        }
    }
}

/// One region capture, driven by the events that its caller reports.
pub struct CaptureEngine {
    region: CaptureRegion,
    registry: CapabilityRegistry,
    phase: Phase,
    round_trips: u32,
    attempt: usize,
    plan: BufferPlan,
    frame: FrameState,
    polls: u32,
    holds_buffer: bool,
    allocations: Ghost<nat>,
    releases: Ghost<nat>,
    pending: Option<Result<Vec<u8>, CaptureError>>,
}

impl View for CaptureEngine {
    type V = EngineView;

    closed spec fn view(&self) -> EngineView {
        EngineView {
            phase: self.phase,
            region: self.region,
            registry: self.registry.parts(),
            round_trips: self.round_trips as nat,
            attempt: self.attempt as nat,
            plan: self.plan,
            frame: self.frame,
            polls: self.polls as nat,
            holds_buffer: self.holds_buffer,
            allocations: self.allocations@,
            releases: self.releases@,
            pending: match self.pending {
                Some(r) => Some(result_view(r)),
                None => None,
            },
        }
    }
}

impl CaptureEngine {
    /// A capture of `region`, not yet started.
    pub fn new(region: CaptureRegion) -> (e: CaptureEngine)
        requires
            region.is_valid(),
        ensures
            e@.wf(),
            e@.phase is Created,
            e@.region == region,
            e@.registry == (None::<u32>, None::<u32>, Seq::<u32>::empty()),
            e@.allocations == 0,
            e@.releases == 0,
            e@.pending is None,
    {
        let registry = CapabilityRegistry::new();
        proof {
            assert(registry.outputs@ =~= Seq::<u32>::empty());
        }
        CaptureEngine {
            region,
            registry,
            phase: Phase::Created,
            round_trips: 0,
            attempt: 0,
            plan: BufferPlan {
                format: candidate_at(0),
                width: region.width,
                height: region.height,
                stride: 0,
                size: 0,
            },
            frame: FrameState {
                announced_width: 0,
                announced_height: 0,
                announced_stride: 0,
                buffer_done: false,
                ready: false,
                failed: false,
            },
            polls: 0,
            holds_buffer: false,
            allocations: Ghost(0),
            releases: Ghost(0),
            pending: None,
        }
    }

    /// Whether the capture is over.
    pub fn is_finished(&self) -> (b: bool)
        ensures
            b == (self@.phase is Finished),
    {
        self.phase == Phase::Finished
    }

    fn begin_attempt(&mut self, i: usize) -> (a: Action)
        requires
            old(self)@.region.is_valid(),
            old(self)@.frame.wf(),
            old(self)@.polls <= MAX_POLLS,
            old(self)@.round_trips <= MAX_ROUND_TRIPS,
            old(self)@.allocations == old(self)@.releases,
            !old(self)@.holds_buffer,
            old(self)@.pending is None,
            old(self)@.attempt < CANDIDATE_COUNT,
            old(self)@.allocations <= i,
            registry_complete(old(self)@.registry),
            i <= CANDIDATE_COUNT,
            i == 0 && old(self)@.attempt == 0 || i == old(self)@.attempt + 1,
        ensures
            old(self)@.begins_attempt(i as nat, final(self)@, a),
            final(self)@.wf(),
    {
        if i < CANDIDATE_COUNT {
            match plan_buffer(candidate_at(i), self.region.width, self.region.height) {
                Some(plan) => {
                    self.phase = Phase::Allocating;
                    self.attempt = i;
                    self.plan = plan;
                    return Action::Allocate(plan);
                },
                None => {},
            }
        }
        self.phase = Phase::Finished;
        Action::Finish(Err(CaptureError::AllFormatsExhausted))
    }

    /// Advances the capture by one event and returns what to do next.
    pub fn step(&mut self, e: Event) -> (a: Action)
        requires
            old(self)@.wf(),
        ensures
            final(self)@.wf(),
            old(self)@.transition(e, final(self)@, a),
    {
        if self.phase == Phase::Finished {
            return Action::Nothing;
        }
        match e {
            Event::Started => {
                if self.phase == Phase::Created {
                    self.phase = Phase::Enumerating;
                    Action::RoundTrip
                } else {
                    Action::Nothing
                }
            },
            Event::GlobalAnnounced { interface, name, .. } => {
                match self.registry.on_global(interface.as_str(), name) {
                    Some(b) => Action::Bind(b),
                    None => Action::Nothing,
                }
            },
            Event::RoundTripDone => {
                if self.phase != Phase::Enumerating {
                    return Action::Nothing;
                }
                self.round_trips = self.round_trips + 1;
                if self.registry.complete() {
                    self.begin_attempt(0)
                } else if self.round_trips >= MAX_ROUND_TRIPS {
                    self.phase = Phase::Finished;
                    Action::Finish(Err(CaptureError::ProtocolUnavailable))
                } else {
                    Action::RoundTrip
                }
            },
            Event::BufferAllocated => {
                if self.phase != Phase::Allocating {
                    return Action::Nothing;
                }
                self.phase = Phase::Capturing;
                self.holds_buffer = true;
                self.allocations = Ghost(self.allocations@ + 1);
                self.polls = 0;
                self.frame = FrameState::new(&self.plan);
                Action::Capture { output: self.registry.first_output(), region: self.region }
            },
            Event::AllocationFailed => {
                if self.phase != Phase::Allocating {
                    return Action::Nothing;
                }
                let next = self.attempt + 1;
                self.begin_attempt(next)
            },
            Event::CaptureIssued => {
                if self.phase != Phase::Capturing {
                    return Action::Nothing;
                }
                self.phase = Phase::Polling;
                Action::Poll { delay_ms: 0 }
            },
            Event::BufferAnnounced { .. } | Event::BufferDone | Event::Ready | Event::Failed => {
                if self.phase == Phase::Polling {
                    self.frame.apply(&e);
                }
                Action::Nothing
            },
            Event::PollElapsed => {
                if self.phase != Phase::Polling {
                    return Action::Nothing;
                }
                self.polls = self.polls + 1;
                if self.frame.ready {
                    self.phase = Phase::Reading;
                    Action::ReadPixels
                } else if self.frame.failed {
                    self.phase = Phase::Releasing;
                    Action::Release(AttemptOutcome::FrameCaptureFailed)
                } else if self.polls >= MAX_POLLS {
                    self.phase = Phase::Releasing;
                    Action::Release(AttemptOutcome::TimedOut)
                } else {
                    Action::Poll { delay_ms: POLL_INTERVAL_MS }
                }
            },
            Event::PixelsRead(pixels) => {
                if self.phase != Phase::Reading {
                    return Action::Nothing;
                }
                let encoded = encode_frame(
                    pixels.as_slice(),
                    self.frame.announced_width,
                    self.frame.announced_height,
                    self.frame.announced_stride,
                );
                let result = match encoded {
                    Ok(img) => Ok(img),
                    Err(_) => Err(CaptureError::EncodingFailure),
                };
                self.pending = Some(result);
                self.phase = Phase::Releasing;
                Action::Release(AttemptOutcome::Captured)
            },
            Event::Released => {
                if self.phase != Phase::Releasing {
                    return Action::Nothing;
                }
                self.holds_buffer = false;
                self.releases = Ghost(self.releases@ + 1);
                match self.pending.take() {
                    Some(r) => {
                        self.phase = Phase::Finished;
                        Action::Finish(r)
                    },
                    None => {
                        let next = self.attempt + 1;
                        self.begin_attempt(next)
                    },
                }
            },
        }
    }
}

} // verus!
