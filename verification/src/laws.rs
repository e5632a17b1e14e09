//! The guarantees of the capture lifecycle, stated over whole runs of the
//! state machine in `capture` and proved once for every helper.

use vstd::prelude::*;
use crate::capture::{
    CaptureError, HelperView, Snapshot, spec_close, spec_render, spec_write, spec_write_result,
};

verus! {

/// One event of the capture lifecycle, as the helper's owner drives it.
pub enum LifecycleEvent {
    /// A `render_image` call with the given draw-command content.
    Render(u64),
    /// A `write_to_file` call, with whether the device's worker pool
    /// accepted the read.
    Write(bool),
    /// A `close` call, with whether the device's drain completed.
    Close(bool),
}

/// The state after one lifecycle event.
pub open spec fn spec_step(pre: HelperView, event: LifecycleEvent) -> HelperView {
    match event {
        LifecycleEvent::Render(draw) => spec_render(pre, draw),
        LifecycleEvent::Write(worker_available) => spec_write(pre, worker_available),
        LifecycleEvent::Close(drained) => spec_close(pre, drained),
    }
}

/// The state after a whole run of lifecycle events, oldest first.
pub open spec fn spec_run(pre: HelperView, events: Seq<LifecycleEvent>) -> HelperView
    decreases events.len(),
{
    if events.len() == 0 {
        pre
    } else {
        spec_run(spec_step(pre, events[0]), events.drop_first())
    }
}

/// The off-screen target's configuration — output dimensions, sample
/// count, window binding — is fixed at construction: no run of renders,
/// writes and closes changes it.  Every write request therefore carries
/// exactly the constructed dimensions, however the window was sized or
/// resized meanwhile.
pub proof fn lemma_configuration_fixed(pre: HelperView, events: Seq<LifecycleEvent>)
    ensures
        spec_run(pre, events).width == pre.width,
        spec_run(pre, events).height == pre.height,
        spec_run(pre, events).sample_count == pre.sample_count,
        spec_run(pre, events).window_id == pre.window_id,
    decreases events.len(),
{
    if events.len() > 0 {
        lemma_configuration_fixed(spec_step(pre, events[0]), events.drop_first());
    }
}

/// A write leaves the pending slot empty — whether or not the worker
/// pool accepted its read — so a second write with no render in between
/// is refused with `NoPendingSnapshot` and changes nothing.
pub proof fn lemma_second_write_refused(pre: HelperView, first_ok: bool, second_ok: bool)
    ensures
        spec_write_result(spec_write(pre, first_ok), second_ok) == Err::<Snapshot, CaptureError>(
            CaptureError::NoPendingSnapshot,
        ),
        spec_write(spec_write(pre, first_ok), second_ok) == spec_write(pre, first_ok),
{
}

/// The states reached by rendering each of `draws` in turn.
pub open spec fn spec_render_all(pre: HelperView, draws: Seq<u64>) -> HelperView
    decreases draws.len(),
{
    if draws.len() == 0 {
        pre
    } else {
        spec_render_all(spec_render(pre, draws[0]), draws.drop_first())
    }
}

/// Overwrite semantics of the pending slot: after any number of renders,
/// a single write persists the last render's content and nothing else —
/// the snapshot it hands to the worker pool is the final one, and it is
/// the only snapshot the run adds to the in-flight reads, so no earlier
/// intermediate frame is ever written.
pub proof fn lemma_write_persists_last_render(pre: HelperView, draws: Seq<u64>)
    requires
        draws.len() >= 1,
        pre.next_frame + draws.len() <= u64::MAX,
    ensures
        spec_write_result(spec_render_all(pre, draws), true) == Ok::<Snapshot, CaptureError>(
            Snapshot {
                frame: (pre.next_frame + draws.len() - 1) as u64,
                content: draws.last(),
            },
        ),
        spec_write(spec_render_all(pre, draws), true).in_flight == pre.in_flight.push(Snapshot {
            frame: (pre.next_frame + draws.len() - 1) as u64,
            content: draws.last(),
        }),
    decreases draws.len(),
{
    if draws.len() == 1 {
        assert(spec_render_all(spec_render(pre, draws[0]), draws.drop_first()) == spec_render(
            pre,
            draws[0],
        ));
    } else {
        lemma_write_persists_last_render(spec_render(pre, draws[0]), draws.drop_first());
        assert(draws.drop_first().last() == draws.last());
    }
}

/// A successful close is an exhaustive drain: no read is left in flight
/// to run a callback later, and the helper is in its terminal state.  A
/// close that timed out leaves the helper exactly as it was, so closing
/// may be retried.
pub proof fn lemma_close_drains_all(pre: HelperView)
    ensures
        spec_close(pre, true).in_flight.len() == 0,
        spec_close(pre, true).closed,
        spec_close(pre, false) == pre,
{
}

/// Displaying is read-only and only a render changes the off-screen
/// target: a write or a close leaves its content as the previous render
/// put it, so a frame displayed without a fresh render shows that
/// previous content.
pub proof fn lemma_display_content_unchanged_without_render(
    pre: HelperView,
    worker_available: bool,
    drained: bool,
)
    ensures
        spec_write(pre, worker_available).target_content == pre.target_content,
        spec_close(pre, drained).target_content == pre.target_content,
{
}

/// A read the worker pool refused is never enqueued: a timed-out write
/// adds nothing to the in-flight reads — its frame is simply lost.
pub proof fn lemma_refused_write_enqueues_nothing(pre: HelperView)
    ensures
        spec_write(pre, false).in_flight == pre.in_flight,
{
}

/// Well-formedness is preserved by every lifecycle event, the frame
/// counter permitting: frame numbers stay below the counter and the
/// in-flight reads keep strict submission order, which is the order the
/// device completes them in.
pub proof fn lemma_step_preserves_inv(pre: HelperView, event: LifecycleEvent)
    requires
        pre.inv(),
        event matches LifecycleEvent::Render(_) ==> pre.next_frame < u64::MAX,
    ensures
        spec_step(pre, event).inv(),
{
}

} // verus!
