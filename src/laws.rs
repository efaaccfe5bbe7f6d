//! Properties of every capture, proved over the engine's transitions.
use vstd::prelude::*;
use crate::encode::{frame_fits, packed_rows, png_rgba8};
use crate::engine::{
    registry_complete, result_view, Action, AttemptOutcome, CaptureError, EngineView, Phase,
    MAX_POLLS, MAX_ROUND_TRIPS,
};
use crate::event::Event;
use crate::format::{candidate, CANDIDATE_COUNT};

verus! {

/// Every buffer that a capture asks for holds rows of `width * 4` bytes and
/// is exactly `stride * height` bytes long, for the region's width and height.
pub proof fn lemma_allocation_shape(pre: EngineView, e: Event, post: EngineView, a: Action)
    requires
        pre.wf(),
        pre.transition(e, post, a),
    ensures
        post.wf(),
        a matches Action::Allocate(p) ==> {
            &&& p.stride == p.width * 4
            &&& p.size == p.stride * p.height
            &&& p.width == pre.region.width
            &&& p.height == pre.region.height
        },
{
}

/// Candidate formats are tried in priority order, each at most once: an
/// allocation for candidate `i + 1` follows only the failure of candidate `i`,
/// and a finished capture makes no further request.
pub proof fn lemma_fallback_order(pre: EngineView, e: Event, post: EngineView, a: Action)
    requires
        pre.wf(),
        pre.transition(e, post, a),
    ensures
        post.attempt >= pre.attempt,
        a matches Action::Allocate(p) ==> {
            &&& p.format == candidate(post.attempt as int)
            &&& pre.phase is Enumerating ==> post.attempt == 0
            &&& !(pre.phase is Enumerating) ==> post.attempt == pre.attempt + 1
            &&& !(pre.phase is Enumerating) ==> {
                ||| pre.phase is Allocating && e is AllocationFailed
                ||| pre.phase is Releasing && pre.pending is None && e is Released
            }
        },
        pre.phase is Finished ==> post == pre && a is Nothing,
        a is Finish ==> post.phase is Finished,
{
}

/// An attempt polls the event queue at most `MAX_POLLS` times: the poll that
/// reaches the bound without a terminal event ends the attempt as timed out.
pub proof fn lemma_poll_bound(pre: EngineView, e: Event, post: EngineView, a: Action)
    requires
        pre.wf(),
        pre.transition(e, post, a),
    ensures
        post.polls <= MAX_POLLS,
        a is Poll ==> post.polls < MAX_POLLS,
        pre.phase is Polling && e is PollElapsed && !pre.frame.is_terminal() && pre.polls + 1
            == MAX_POLLS ==> (a matches Action::Release(o) && o == AttemptOutcome::TimedOut),
{
}

/// At most one shared buffer is live at a time: a new one is asked for only
/// once the previous one was reported released. None is left when a capture
/// finishes, whatever its result.
pub proof fn lemma_resources_released(pre: EngineView, e: Event, post: EngineView, a: Action)
    requires
        pre.wf(),
        pre.transition(e, post, a),
    ensures
        a is Allocate ==> !post.holds_buffer,
        a is Allocate && pre.holds_buffer ==> e is Released,
        a is Finish ==> !post.holds_buffer && post.allocations == post.releases,
        post.allocations <= post.releases + 1,
{
}

/// A capture whose registry never saw a capture manager allocates nothing,
/// and ends with `ProtocolUnavailable` at the last round-trip.
pub proof fn lemma_unavailable_without_allocation(
    pre: EngineView,
    e: Event,
    post: EngineView,
    a: Action,
)
    requires
        pre.wf(),
        pre.transition(e, post, a),
        pre.registry.0 is None,
        post.registry.0 is None,
    ensures
        !(a is Allocate),
        post.allocations == 0,
        pre.phase is Enumerating && e is RoundTripDone && pre.round_trips + 1 == MAX_ROUND_TRIPS
            ==> (a matches Action::Finish(r) && r == Err::<Vec<u8>, CaptureError>(
            CaptureError::ProtocolUnavailable,
        )),
{
}

/// A successful capture returns the PNG of the buffer's rows read at the
/// geometry that the server announced, with the announced width and height;
/// reading a ready frame succeeds exactly when that geometry has pixels and
/// lies inside the buffer.
pub proof fn lemma_success_uses_announced_geometry(
    pre: EngineView,
    e: Event,
    post: EngineView,
    a: Action,
)
    requires
        pre.wf(),
        pre.transition(e, post, a),
    ensures
        pre.phase is Reading ==> (e matches Event::PixelsRead(pixels) ==> (post.pending matches Some(r)
            && (r matches Ok(img) ==> img == png_rgba8(
            packed_rows(
                pixels@,
                pre.frame.announced_width as int,
                pre.frame.announced_stride as int,
                pre.frame.announced_height as nat,
            ),
            pre.frame.announced_width,
            pre.frame.announced_height,
        )))),
        a matches Action::Finish(r) ==> (r is Ok ==> pre.pending == Some(result_view(r))),
        pre.phase is Reading ==> (e matches Event::PixelsRead(pixels) ==> (frame_fits(
            pixels@.len(),
            pre.frame.announced_width,
            pre.frame.announced_height,
            pre.frame.announced_stride,
        ) && pre.frame.announced_width > 0 && pre.frame.announced_height > 0 <==> (post.pending
            matches Some(r) && r is Ok))),
{
}

/// A capture as a whole: from a well-formed start, event `events[i]` takes
/// `states[i]` to `states[i + 1]` and asks for `actions[i]`.
pub open spec fn is_run(states: Seq<EngineView>, events: Seq<Event>, actions: Seq<Action>) -> bool {
    &&& states.len() == events.len() + 1
    &&& actions.len() == events.len()
    &&& states[0].wf()
    &&& forall|i: int| 0 <= i < events.len() ==> #[trigger] step_at(states, events, actions, i)
}

/// Step `i` of a run is a transition.
pub open spec fn step_at(states: Seq<EngineView>, events: Seq<Event>, actions: Seq<Action>, i: int) -> bool {
    states[i].transition(events[i], states[i + 1], actions[i])
}

/// Every state of a capture is well formed, and no capture makes more
/// buffer allocations than there are candidate formats.
pub proof fn lemma_run_wf(states: Seq<EngineView>, events: Seq<Event>, actions: Seq<Action>, k: int)
    requires
        is_run(states, events, actions),
        0 <= k < states.len(),
    ensures
        states[k].wf(),
        states[k].allocations <= CANDIDATE_COUNT,
    decreases k,
{
    if k > 0 {
        lemma_run_wf(states, events, actions, k - 1);
        assert(step_at(states, events, actions, k - 1));
        lemma_allocation_shape(states[k - 1], events[k - 1], states[k], actions[k - 1]);
    }
}

proof fn lemma_run_after_allocation(
    states: Seq<EngineView>,
    events: Seq<Event>,
    actions: Seq<Action>,
    i: int,
    k: int,
)
    requires
        is_run(states, events, actions),
        0 <= i < events.len(),
        actions[i] is Allocate,
        i + 1 <= k < states.len(),
    ensures
        states[k].attempt >= states[i + 1].attempt,
        !(states[k].phase is Created || states[k].phase is Enumerating),
    decreases k,
{
    lemma_run_wf(states, events, actions, i);
    assert(step_at(states, events, actions, i));
    if k > i + 1 {
        lemma_run_after_allocation(states, events, actions, i, k - 1);
        lemma_run_wf(states, events, actions, k - 1);
        assert(step_at(states, events, actions, k - 1));
        lemma_fallback_order(states[k - 1], events[k - 1], states[k], actions[k - 1]);
    }
}

/// Over a whole capture, buffers are asked for in priority order, each
/// candidate at most once: every allocation is for a later candidate than
/// all earlier ones, and is for the candidate of its attempt.
pub proof fn lemma_run_fallback_order(
    states: Seq<EngineView>,
    events: Seq<Event>,
    actions: Seq<Action>,
    i: int,
    j: int,
)
    requires
        is_run(states, events, actions),
        0 <= i < j < events.len(),
        actions[i] is Allocate,
        actions[j] is Allocate,
    ensures
        states[i + 1].attempt < states[j + 1].attempt,
        actions[j] matches Action::Allocate(p) ==> p.format == candidate(states[j + 1].attempt as int),
{
    lemma_run_after_allocation(states, events, actions, i, j);
    lemma_run_wf(states, events, actions, j);
    assert(step_at(states, events, actions, j));
    lemma_fallback_order(states[j], events[j], states[j + 1], actions[j]);
}

/// Once a capture has finished, with success or an error, it asks for
/// nothing more: every later action is `Nothing` and no buffer is held.
pub proof fn lemma_run_finish_is_final(
    states: Seq<EngineView>,
    events: Seq<Event>,
    actions: Seq<Action>,
    i: int,
    k: int,
)
    requires
        is_run(states, events, actions),
        0 <= i < events.len(),
        actions[i] is Finish,
        i < k < states.len(),
    ensures
        states[k].phase is Finished,
        !states[k].holds_buffer,
        k < events.len() ==> actions[k] is Nothing,
    decreases k,
{
    lemma_run_wf(states, events, actions, i);
    assert(step_at(states, events, actions, i));
    if k > i + 1 {
        lemma_run_finish_is_final(states, events, actions, i, k - 1);
        assert(step_at(states, events, actions, k - 1));
    }
    lemma_run_wf(states, events, actions, k);
    if k < events.len() {
        assert(step_at(states, events, actions, k));
    }
}

/// The step of a capture from the start at which the result held in
/// `states[k]` was produced: the reading of the buffer, at a geometry that
/// has not changed since.
pub proof fn lemma_run_pending_origin(
    states: Seq<EngineView>,
    events: Seq<Event>,
    actions: Seq<Action>,
    k: int,
) -> (j: int)
    requires
        is_run(states, events, actions),
        states[0].phase is Created,
        0 <= k < states.len(),
        states[k].pending is Some,
    ensures
        0 <= j < k,
        states[j].phase is Reading,
        events[j] is PixelsRead,
        states[j].frame == states[k].frame,
        states[j + 1].pending == states[k].pending,
        events[j] matches Event::PixelsRead(pixels) ==> states[j].read_result(
            pixels@,
            states[k].pending->0,
        ),
    decreases k,
{
    lemma_run_wf(states, events, actions, k);
    lemma_run_wf(states, events, actions, 0);
    if k == 0 {
        assert(false);
    }
    lemma_run_wf(states, events, actions, k - 1);
    assert(step_at(states, events, actions, k - 1));
    let pre = states[k - 1];
    if pre.phase is Reading && events[k - 1] is PixelsRead {
        k - 1
    } else {
        assert(pre.pending == states[k].pending);
        assert(pre.frame == states[k].frame);
        lemma_run_pending_origin(states, events, actions, k - 1)
    }
}

/// A capture that succeeds returns the PNG of the buffer it read, taken row
/// by row at the stride, width and height that the server announced.
pub proof fn lemma_run_success_is_announced_frame(
    states: Seq<EngineView>,
    events: Seq<Event>,
    actions: Seq<Action>,
    k: int,
) -> (j: int)
    requires
        is_run(states, events, actions),
        states[0].phase is Created,
        0 <= k < events.len(),
        actions[k] matches Action::Finish(r) && r is Ok,
    ensures
        0 <= j < k,
        events[j] matches Event::PixelsRead(pixels) && actions[k] matches Action::Finish(r)
            && r matches Ok(img) && img@ == png_rgba8(
            packed_rows(
                pixels@,
                states[j].frame.announced_width as int,
                states[j].frame.announced_stride as int,
                states[j].frame.announced_height as nat,
            ),
            states[j].frame.announced_width,
            states[j].frame.announced_height,
        ),
{
    lemma_run_wf(states, events, actions, k);
    assert(step_at(states, events, actions, k));
    let j = lemma_run_pending_origin(states, events, actions, k);
    j
}

proof fn lemma_run_never_ready(
    states: Seq<EngineView>,
    events: Seq<Event>,
    actions: Seq<Action>,
    k: int,
)
    requires
        is_run(states, events, actions),
        !states[0].frame.ready,
        states[0].pending is None,
        forall|i: int| 0 <= i < events.len() ==> !(#[trigger] events[i] is Ready),
        0 <= k < states.len(),
    ensures
        !states[k].frame.ready,
        states[k].pending is None,
    decreases k,
{
    if k > 0 {
        lemma_run_never_ready(states, events, actions, k - 1);
        lemma_run_wf(states, events, actions, k - 1);
        assert(step_at(states, events, actions, k - 1));
        assert(!(events[k - 1] is Ready));
    }
}

/// A capture in which the server never reports a frame ready returns no
/// image: once the capabilities were found, it ends with
/// `AllFormatsExhausted`, every attempt having failed or timed out.
pub proof fn lemma_run_without_ready(
    states: Seq<EngineView>,
    events: Seq<Event>,
    actions: Seq<Action>,
    k: int,
)
    requires
        is_run(states, events, actions),
        !states[0].frame.ready,
        states[0].pending is None,
        forall|i: int| 0 <= i < events.len() ==> !(#[trigger] events[i] is Ready),
        0 <= k < events.len(),
        actions[k] is Finish,
        registry_complete(states[k].registry),
    ensures
        actions[k] matches Action::Finish(r) && r == Err::<Vec<u8>, CaptureError>(
            CaptureError::AllFormatsExhausted,
        ),
{
    lemma_run_never_ready(states, events, actions, k);
    lemma_run_wf(states, events, actions, k);
    assert(step_at(states, events, actions, k));
}

} // verus!
