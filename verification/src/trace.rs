//! Trace-level laws of one hold-capable pedal.
//!
//! The frame protocol and the deferred hold task are summarised here as an
//! event semantics: a [`PedalEvent::Frame`] is one whole frame (start,
//! dispatch, finish) with the pedal's pressed flag, and a
//! [`PedalEvent::HoldTimer`] is the moment the deferred task's delay elapses,
//! carrying whether its effect ran to completion. The lemmas prove the edge
//! detection, hold-commit and cancellation-suppression properties over whole
//! event sequences.

use vstd::prelude::*;

use crate::dispatch::Action;
use crate::dispatch::commit_step;
use crate::dispatch::frame_step_hold;
use crate::dispatch::left_actions;
use crate::dispatch::right_actions;
use crate::pedal::Pedal;
use crate::pedal::start_step;

verus! {

/// One thing that can happen to a hold-capable pedal.
#[derive(Clone, Copy, PartialEq, Eq, Debug)]
pub enum PedalEvent {
    /// One whole input frame, with this pedal's pressed flag.
    Frame(bool),
    /// The deferred task's delay elapsed; the payload says whether the hold
    /// effect then ran to completion.
    HoldTimer(bool),
}

/// One event's effect on the pedal's state.
pub open spec fn event_step(p: Pedal, ev: PedalEvent) -> Pedal {
    match ev {
        PedalEvent::Frame(pressed) => frame_step_hold(p, pressed),
        PedalEvent::HoldTimer(effect_done) => commit_step(p, effect_done),
    }
}

/// Whether the deferred hold effect is performed at this event: only when the
/// delay elapses while the task is still live.
pub open spec fn effect_fires(p: Pedal, ev: PedalEvent) -> bool {
    ev is HoldTimer && p.task_live()
}

/// The pedal's state after a whole event sequence.
pub open spec fn run_events(p: Pedal, evs: Seq<PedalEvent>) -> Pedal
    decreases evs.len(),
{
    if evs.len() == 0 {
        p
    } else {
        run_events(event_step(p, evs[0]), evs.skip(1))
    }
}

/// Whether the hold effect fires at any point along an event sequence.
pub open spec fn any_effect_fires(p: Pedal, evs: Seq<PedalEvent>) -> bool
    decreases evs.len(),
{
    if evs.len() == 0 {
        false
    } else {
        effect_fires(p, evs[0]) || any_effect_fires(event_step(p, evs[0]), evs.skip(1))
    }
}

/// States the pedal can actually be in between frames: a deferred task or an
/// active hold exists only with a press on record.
pub open spec fn wf(p: Pedal) -> bool {
    &&& (p.future_handle is Some ==> p.prev_pressed)
    &&& (p.holding ==> p.prev_pressed)
}

/// An idle pedal, as `Pedal::new` makes it, is well-formed; with the
/// preservation lemmas below, every reachable pedal state is.
pub proof fn lemma_idle_wf(p: Pedal)
    requires
        p.is_idle(),
    ensures
        wf(p),
{
}

/// Every event keeps a pedal well-formed.
pub proof fn lemma_wf_preserved(p: Pedal, ev: PedalEvent)
    requires
        wf(p),
    ensures
        wf(event_step(p, ev)),
{
}

/// Well-formedness is kept along whole event sequences.
pub proof fn lemma_wf_preserved_run(p: Pedal, evs: Seq<PedalEvent>)
    requires
        wf(p),
    ensures
        wf(run_events(p, evs)),
    decreases evs.len(),
{
    if evs.len() > 0 {
        lemma_wf_preserved(p, evs[0]);
        lemma_wf_preserved_run(event_step(p, evs[0]), evs.skip(1));
    }
}

/// The pedal's state after feeding `inputs` frame-by-frame (no timer events).
pub open spec fn run_frames(p: Pedal, inputs: Seq<bool>) -> Pedal
    decreases inputs.len(),
{
    if inputs.len() == 0 {
        p
    } else {
        run_frames(frame_step_hold(p, inputs[0]), inputs.skip(1))
    }
}

/// After any run of frames, the edge-detection history is exactly the last
/// input fed in.
pub proof fn lemma_prev_tracks_last_input(p: Pedal, inputs: Seq<bool>)
    ensures
        run_frames(p, inputs).prev_pressed == (if inputs.len() == 0 {
            p.prev_pressed
        } else {
            inputs.last()
        }),
        run_frames(p, inputs).pressed == (if inputs.len() == 0 {
            p.pressed
        } else {
            inputs.last()
        }),
    decreases inputs.len(),
{
    if inputs.len() > 0 {
        lemma_prev_tracks_last_input(frame_step_hold(p, inputs[0]), inputs.skip(1));
    }
}

/// Edge detection is exact: for any sequence of pressed flags fed
/// frame-by-frame to one pedal, the state the dispatcher reads in frame `i`
/// reports just-pressed exactly on a false-to-true transition of the input,
/// and released exactly on a true-to-false transition.
pub proof fn lemma_edge_detection(p: Pedal, inputs: Seq<bool>, i: int)
    requires
        !p.prev_pressed,
        0 <= i < inputs.len(),
    ensures
        start_step(run_frames(p, inputs.take(i)), inputs[i]).spec_just_pressed() == (inputs[i] && (
        i == 0 || !inputs[i - 1])),
        start_step(run_frames(p, inputs.take(i)), inputs[i]).spec_released() == (!inputs[i] && i
            > 0 && inputs[i - 1]),
{
    lemma_prev_tracks_last_input(p, inputs.take(i));
    if i > 0 {
        assert(inputs.take(i).last() == inputs[i - 1]);
    }
}

/// Frames that keep the pedal pressed change nothing: the press is already on
/// record, so neither edge fires and the deferred task is left alone.
pub proof fn lemma_pressed_frames_idle(q: Pedal, held: Seq<PedalEvent>)
    requires
        q.pressed,
        q.prev_pressed,
        forall|i: int| 0 <= i < held.len() ==> held[i] == PedalEvent::Frame(true),
    ensures
        run_events(q, held) == q,
    decreases held.len(),
{
    if held.len() > 0 {
        assert(held[0] == PedalEvent::Frame(true));
        assert(event_step(q, held[0]) == q);
        lemma_pressed_frames_idle(q, held.skip(1));
    }
}

/// A held pedal commits its hold: after a just-press frame and any number of
/// frames that keep the pedal down, a timer whose effect ran to completion
/// leaves `holding == true`, with the press still on record.
pub proof fn lemma_hold_commits_holding(p: Pedal, held: Seq<PedalEvent>)
    requires
        wf(p),
        !p.prev_pressed,
        forall|i: int| 0 <= i < held.len() ==> held[i] == PedalEvent::Frame(true),
    ensures
        ({
            let before_timer = run_events(event_step(p, PedalEvent::Frame(true)), held);
            &&& effect_fires(before_timer, PedalEvent::HoldTimer(true))
            &&& event_step(before_timer, PedalEvent::HoldTimer(true)).holding
            &&& event_step(before_timer, PedalEvent::HoldTimer(true)).pressed
        }),
{
    let after_press = event_step(p, PedalEvent::Frame(true));
    assert(after_press.task_live());
    assert(after_press.pressed && after_press.prev_pressed);
    lemma_pressed_frames_idle(after_press, held);
}

/// Starting a frame with the pedal up cancels an outstanding deferred task
/// and suppresses its effect, however the cancellation races with the task's
/// own completion: from the moment `start_update` has run, a timer event can
/// neither fire the effect nor newly set `holding`, and the frame itself ends
/// with no task, no hold, and the release on record.
pub proof fn lemma_early_release_suppresses(q: Pedal, ok: bool)
    requires
        wf(q),
    ensures
        q.future_handle is Some ==> crate::pedal::start_cancel(q, false),
        start_step(q, false).future_handle matches Some(t) ==> t.cancelled,
        !effect_fires(start_step(q, false), PedalEvent::HoldTimer(ok)),
        commit_step(start_step(q, false), ok) == start_step(q, false),
        ({
            let after = event_step(q, PedalEvent::Frame(false));
            &&& after.future_handle is None
            &&& !after.holding
            &&& !after.pressed
            &&& !after.prev_pressed
            &&& !effect_fires(after, PedalEvent::HoldTimer(ok))
            &&& !event_step(after, PedalEvent::HoldTimer(ok)).holding
        }),
{
}

/// No event in the sequence presses the pedal down.
pub open spec fn no_press(evs: Seq<PedalEvent>) -> bool {
    forall|i: int| 0 <= i < evs.len() ==> evs[i] != PedalEvent::Frame(true)
}

/// A pedal without an outstanding task stays without one until the next
/// press, so no hold effect can fire and `holding` can never become true
/// along the way.
pub proof fn lemma_no_task_no_effect(p: Pedal, evs: Seq<PedalEvent>)
    requires
        p.future_handle is None,
        no_press(evs),
    ensures
        run_events(p, evs).future_handle is None,
        !any_effect_fires(p, evs),
        !p.holding ==> !run_events(p, evs).holding,
    decreases evs.len(),
{
    if evs.len() > 0 {
        let q = event_step(p, evs[0]);
        assert(evs[0] != PedalEvent::Frame(true));
        assert(q.future_handle is None);
        assert(!p.holding ==> !q.holding);
        assert(no_press(evs.skip(1)));
        lemma_no_task_no_effect(q, evs.skip(1));
    }
}

/// A tap end-to-end: a pedal pressed and then released strictly before its
/// deferred task's delay elapses never reaches `holding == true`, and the
/// deferred effect never fires — not during the press, not at the release,
/// and not afterwards, however late the timer arrives.
pub proof fn lemma_tap_never_holds(p: Pedal, held: Seq<PedalEvent>, after: Seq<PedalEvent>)
    requires
        wf(p),
        !p.prev_pressed,
        !p.holding,
        forall|i: int| 0 <= i < held.len() ==> held[i] == PedalEvent::Frame(true),
        no_press(after),
    ensures
        ({
            let press = event_step(p, PedalEvent::Frame(true));
            let before_release = run_events(press, held);
            let released = event_step(before_release, PedalEvent::Frame(false));
            &&& !press.holding
            &&& !before_release.holding
            &&& !released.holding
            &&& !any_effect_fires(released, after)
            &&& !run_events(released, after).holding
        }),
{
    let press = event_step(p, PedalEvent::Frame(true));
    lemma_wf_preserved(p, PedalEvent::Frame(true));
    lemma_pressed_frames_idle(press, held);
    let before_release = run_events(press, held);
    lemma_early_release_suppresses(before_release, true);
    let released = event_step(before_release, PedalEvent::Frame(false));
    lemma_no_task_no_effect(released, after);
}

/// Three-pedal independence, at the frame level: `handle_pedals_input`
/// already states each pedal's new state and actions as a function of that
/// pedal's own prior state and its own report byte alone; so pressing the
/// left and right pedals in the same frame makes each emit its own
/// just-pressed dispatch, untouched by the other.
pub proof fn lemma_simultaneous_press_independence(left: Pedal, right: Pedal)
    requires
        !left.prev_pressed,
        !right.prev_pressed,
    ensures
        left_actions(start_step(left, true)) == seq![Action::StartHoldTask],
        right_actions(start_step(right, true)) == seq![Action::StartHoldTask],
{
    assert(left_actions(start_step(left, true)) =~= seq![Action::StartHoldTask]);
    assert(right_actions(start_step(right, true)) =~= seq![Action::StartHoldTask]);
}

} // verus!
