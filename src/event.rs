use vstd::prelude::*;

verus! {

/// What the caller reports to the capture engine: protocol events that the
/// display server sent, and the completion of each action it performed.
#[derive(Debug)]
pub enum Event {
    /// The caller begins a capture.
    Started,
    /// The server announced a global object.
    GlobalAnnounced { interface: String, name: u32, version: u32 },
    /// A registry round-trip finished.
    RoundTripDone,
    /// The requested shared buffer was created and mapped.
    BufferAllocated,
    /// Creating, sizing or mapping the requested shared buffer failed.
    AllocationFailed,
    /// The capture request was sent.
    CaptureIssued,
    /// The server gave the geometry it will use for the frame.
    BufferAnnounced { format: u32, width: u32, height: u32, stride: u32 },
    /// The server has no further buffer geometry to offer.
    BufferDone,
    /// The frame was copied into the buffer.
    Ready,
    /// The server rejected the capture.
    Failed,
    /// One poll of the event queue finished.
    PollElapsed,
    /// The contents of the mapped buffer.
    PixelsRead(Vec<u8>),
    /// The shared buffer was unmapped and its descriptor closed.
    Released,
}

} // verus!
