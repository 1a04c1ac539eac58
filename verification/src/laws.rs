//! The library's cross-call laws, stated and proved over the models that the
//! function contracts speak of.
//!
//! The controller contracts tie executable code to the event model used
//! here: `RenderPipelineContext::commit` is the only step that changes the
//! active generation and advances it by exactly one, a failed
//! `rebuild_pipeline` leaves the controller untouched, and `App::render`
//! records that a pass used exactly the controller's current generation.

use vstd::prelude::*;
use crate::frame::{App, SizeModel, apply_resize};
use crate::uniforms::next_frame_index;

verus! {

/// One event at the pipeline controller, as seen by an interleaving of the
/// render thread and the file-watcher thread.
pub enum CoreEvent {
    /// A compile attempt succeeded and committed a new pipeline.
    Committed,
    /// A compile attempt failed validation and was discarded.
    Rejected,
    /// The frame scheduler rendered one frame.
    Rendered,
}

/// The pipeline generation active after a sequence of controller events:
/// commits alone advance it, by one each.
pub open spec fn generation_after(events: Seq<CoreEvent>) -> nat
    decreases events.len(),
{
    if events.len() == 0 {
        0
    } else {
        generation_after(events.drop_last()) + (match events.last() {
            CoreEvent::Committed => 1int,
            _ => 0int,
        }) as nat
    }
}

/// The generation a render at position `i` observes: exactly the one active
/// after the events before it — one whole committed pipeline, never a
/// mixture of two.
pub open spec fn observed_at(events: Seq<CoreEvent>, i: int) -> nat {
    generation_after(events.take(i))
}

/// Pipeline atomicity, stability half: renders with no successful commit
/// between them observe the same pipeline, however many compile attempts
/// failed in between.
pub proof fn lemma_render_stable_between_commits(events: Seq<CoreEvent>, i: int, j: int)
    requires
        0 <= i <= j <= events.len(),
        forall|k: int| i <= k < j ==> !((#[trigger] events[k]) matches CoreEvent::Committed),
    ensures
        observed_at(events, i) == observed_at(events, j),
    decreases j - i,
{
    if i < j {
        assert(events.take(j).drop_last() =~= events.take(j - 1));
        assert(events.take(j).last() == events[j - 1]);
        lemma_render_stable_between_commits(events, i, j - 1);
    }
}

/// Pipeline atomicity, swap half: a successful commit advances the observed
/// generation by exactly one, so a render after it uses the new pipeline
/// whole — exactly one of {the pipeline before the commit, the pipeline
/// after it}.
pub proof fn lemma_commit_advances_one(events: Seq<CoreEvent>, k: int)
    requires
        0 <= k < events.len(),
        events[k] matches CoreEvent::Committed,
    ensures
        observed_at(events, k + 1) == observed_at(events, k) + 1,
{
    assert(events.take(k + 1).drop_last() =~= events.take(k));
    assert(events.take(k + 1).last() == events[k]);
}

/// Validation rollback at the event level: a failed compile attempt is
/// invisible to every subsequent render.
pub proof fn lemma_rejected_invisible(events: Seq<CoreEvent>, k: int)
    requires
        0 <= k < events.len(),
        events[k] matches CoreEvent::Rejected,
    ensures
        observed_at(events, k + 1) == observed_at(events, k),
{
    assert(events.take(k + 1).drop_last() =~= events.take(k));
    assert(events.take(k + 1).last() == events[k]);
}

/// Feedback delay: whenever the feedback texture holds a frame's output at
/// all, it is exactly the most recently presented frame — so the pass of
/// frame N samples the output of frame N−1, and a feedback buffer that has
/// seen no copy since startup or the last resize samples as cleared.
pub proof fn lemma_feedback_is_previous_frame(app: App)
    requires
        app.wf(),
        app.backbuffer().holds() is Some,
    ensures
        app.frames_presented() >= 1,
        app.backbuffer().holds() == Some((app.frames_presented() - 1) as nat),
{
}

/// Resize idempotence: applying the same size twice changes nothing beyond
/// the first application.
pub proof fn lemma_resize_idempotent(m: SizeModel, width: u32, height: u32)
    ensures
        apply_resize(apply_resize(m, width, height), width, height) == apply_resize(
            m,
            width,
            height,
        ),
{
}

/// Uniform monotonicity: each successful render advances the shader-visible
/// counter by exactly one, modulo its 32-bit width.
pub proof fn lemma_counter_steps_by_one(frame: nat)
    requires
        frame < 0x100000000,
    ensures
        next_frame_index(frame) == (frame + 1) % 0x100000000,
        frame + 1 < 0x100000000 ==> next_frame_index(frame) == frame + 1,
        frame + 1 == 0x100000000 ==> next_frame_index(frame) == 0,
{
}

} // verus!

