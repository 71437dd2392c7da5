//! Per-pedal behaviour policies and the per-frame dispatch protocol.
//!
//! Each input frame runs `start_update` on all three pedals, then one policy
//! handler per pedal, then `finish_update` on all three. The handlers decide
//! which OS-level actions to perform and return them as values; an unverified
//! shell performs them. Hold behaviour is realised by a deferred task: the
//! handler requests one with [`Action::StartHoldTask`], and when its delay
//! elapses the shell asks [`fire_left_hold`] / [`fire_right_hold`] whether the
//! effect may still run, performs it, and commits with
//! [`Pedal::complete_hold`].

use vstd::prelude::*;

use crate::pedal::DeferredTask;
use crate::pedal::Pedal;
use crate::pedal::Pedals;
use crate::pedal::finish_step;
use crate::pedal::start_cancel;
use crate::pedal::start_step;

verus! {

/// Which keyboard layout a layout-switch action selects.
#[derive(Clone, Copy, PartialEq, Eq, Debug)]
pub enum LayoutChoice {
    /// The layout activated while the left pedal is held.
    Alternate,
    /// The layout restored when the held left pedal is released.
    Default,
}

/// Which application an app-launch action opens or focuses.
#[derive(Clone, Copy, PartialEq, Eq, Debug)]
pub enum AppTarget {
    Browser,
    Editor,
}

/// A key that a synthetic-keystroke action touches.
#[derive(Clone, Copy, PartialEq, Eq, Debug)]
pub enum Key {
    Meta,
    Space,
    Tab,
    Escape,
    Unicode(char),
}

/// How a synthetic-keystroke action touches a key.
#[derive(Clone, Copy, PartialEq, Eq, Debug)]
pub enum KeyMotion {
    Press,
    Click,
    Release,
}

/// One synthetic key event, with an optional pause before it.
#[derive(Clone, Copy, PartialEq, Eq, Debug)]
pub struct KeyStep {
    pub key: Key,
    pub motion: KeyMotion,
    /// Milliseconds to wait before issuing this event.
    pub pause_before_ms: u64,
}

/// An OS-level action the dispatcher asks the shell to perform.
#[derive(Clone, Copy, PartialEq, Eq, Debug)]
pub enum Action {
    /// Spawn the pedal's deferred hold task (fires after the hold delay).
    StartHoldTask,
    /// Switch the keyboard layout, with the two-identifier fallback.
    SelectLayout(LayoutChoice),
    /// Open or focus an application.
    OpenApp(AppTarget),
    /// The fixed key combination that opens the assistant window.
    AssistantCombo,
    /// The keystrokes that enter the editor's alternate input mode.
    EnterInsertMode,
    /// The keystroke that leaves the editor's alternate input mode.
    ExitInsertMode,
}

/// How a hold-capable pedal's state changes during dispatch: a just-pressed
/// pedal takes a fresh live deferred task; a released pedal drops its hold
/// state and its task handle.
pub open spec fn hold_dispatch_step(p: Pedal) -> Pedal {
    let p1 = if p.spec_just_pressed() {
        Pedal { future_handle: Some(DeferredTask { cancelled: false }), ..p }
    } else {
        p
    };
    if p1.spec_released() {
        Pedal { holding: false, future_handle: None, ..p1 }
    } else {
        p1
    }
}

/// The actions the left-pedal policy emits for a pedal in mid-frame state `p`.
pub open spec fn left_actions(p: Pedal) -> Seq<Action> {
    let on_press = if p.spec_just_pressed() {
        seq![Action::StartHoldTask]
    } else {
        Seq::<Action>::empty()
    };
    let on_release = if p.spec_released() {
        if p.holding {
            seq![Action::SelectLayout(LayoutChoice::Default)]
        } else {
            seq![Action::OpenApp(AppTarget::Browser)]
        }
    } else {
        Seq::<Action>::empty()
    };
    on_press + on_release
}

/// The actions the central-pedal policy emits: one assistant combo per
/// release, nothing else.
pub open spec fn central_actions(p: Pedal) -> Seq<Action> {
    if p.spec_released() {
        seq![Action::AssistantCombo]
    } else {
        Seq::<Action>::empty()
    }
}

/// The actions the right-pedal policy emits for a pedal in mid-frame state `p`.
pub open spec fn right_actions(p: Pedal) -> Seq<Action> {
    let on_press = if p.spec_just_pressed() {
        seq![Action::StartHoldTask]
    } else {
        Seq::<Action>::empty()
    };
    let on_release = if !p.spec_just_pressed() && p.spec_released() {
        if p.holding {
            seq![Action::ExitInsertMode]
        } else {
            seq![Action::OpenApp(AppTarget::Editor)]
        }
    } else {
        Seq::<Action>::empty()
    };
    on_press + on_release
}

/// Left-pedal policy: a tap opens the browser; a hold switches to the
/// alternate layout (deferred) and releasing switches back to the default.
pub fn handle_left_pedal(pedal: &mut Pedal) -> (actions: Vec<Action>)
    ensures
        *final(pedal) == hold_dispatch_step(*old(pedal)),
        actions@ == left_actions(*old(pedal)),
{
    let mut actions: Vec<Action> = Vec::new();

    if pedal.is_just_pressed() {
        pedal.set_future(Some(DeferredTask { cancelled: false }));
        actions.push(Action::StartHoldTask);
    }

    if pedal.is_released() {
        if pedal.is_holding() {
            actions.push(Action::SelectLayout(LayoutChoice::Default));
            pedal.set_holding(false);
        } else {
            actions.push(Action::OpenApp(AppTarget::Browser));
        }
        pedal.set_future(None);
    }

    proof {
        assert(actions@ =~= left_actions(*old(pedal)));
    }
    actions
}

/// Central-pedal policy: a release emits the assistant key combination; the
/// pedal keeps no hold state and owns no deferred task.
pub fn handle_central_pedal(pedal: &Pedal) -> (actions: Vec<Action>)
    ensures
        actions@ == central_actions(*pedal),
{
    let mut actions: Vec<Action> = Vec::new();

    if pedal.is_released() {
        actions.push(Action::AssistantCombo);
    }

    proof {
        assert(actions@ =~= central_actions(*pedal));
    }
    actions
}

/// Right-pedal policy: a tap opens the editor; a hold enters the alternate
/// input mode (deferred) and releasing leaves it again.
pub fn handle_right_pedal(pedal: &mut Pedal) -> (actions: Vec<Action>)
    ensures
        *final(pedal) == hold_dispatch_step(*old(pedal)),
        actions@ == right_actions(*old(pedal)),
{
    let mut actions: Vec<Action> = Vec::new();

    if pedal.is_just_pressed() {
        pedal.set_future(Some(DeferredTask { cancelled: false }));
        actions.push(Action::StartHoldTask);
    } else if pedal.is_released() {
        if pedal.is_holding() {
            actions.push(Action::ExitInsertMode);
            pedal.set_holding(false);
        } else {
            actions.push(Action::OpenApp(AppTarget::Editor));
        }
        pedal.set_future(None);
    }

    proof {
        assert(actions@ =~= right_actions(*old(pedal)));
    }
    actions
}

/// The hold effect the left pedal's deferred task may still perform: the
/// switch to the alternate layout, unless the task was cancelled or replaced.
pub fn fire_left_hold(pedal: &Pedal) -> (effect: Option<Action>)
    ensures
        effect == (if pedal.task_live() {
            Some(Action::SelectLayout(LayoutChoice::Alternate))
        } else {
            None::<Action>
        }),
{
    if let Some(t) = &pedal.future_handle {
        if !t.cancelled {
            return Some(Action::SelectLayout(LayoutChoice::Alternate));
        }
    }
    None
}

/// The hold effect the right pedal's deferred task may still perform: the
/// keystrokes entering the alternate input mode, unless cancelled.
pub fn fire_right_hold(pedal: &Pedal) -> (effect: Option<Action>)
    ensures
        effect == (if pedal.task_live() {
            Some(Action::EnterInsertMode)
        } else {
            None::<Action>
        }),
{
    if let Some(t) = &pedal.future_handle {
        if !t.cancelled {
            return Some(Action::EnterInsertMode);
        }
    }
    None
}

/// How a hold commit changes the pedal: `holding` becomes true exactly when
/// the effect ran to completion and the task was still uncancelled.
pub open spec fn commit_step(p: Pedal, effect_done: bool) -> Pedal {
    if effect_done && p.task_live() {
        Pedal { holding: true, ..p }
    } else {
        p
    }
}

impl Pedal {
    /// Commits a deferred hold: sets `holding` if and only if the effect was
    /// performed and the task is still live. The cancellation check and the
    /// commit happen in one step, so a cancelled task can never leave
    /// `holding` set.
    pub fn complete_hold(&mut self, effect_done: bool) -> (committed: bool)
        ensures
            committed == (effect_done && old(self).task_live()),
            *final(self) == commit_step(*old(self), effect_done),
    {
        let mut live = false;
        if let Some(t) = &self.future_handle {
            if !t.cancelled {
                live = true;
            }
        }
        let committed = effect_done && live;
        if committed {
            self.set_holding(true);
        }
        committed
    }
}

/// A hold-capable pedal's state after one whole frame (start, dispatch,
/// finish) with input `pressed`.
pub open spec fn frame_step_hold(p: Pedal, pressed: bool) -> Pedal {
    finish_step(hold_dispatch_step(start_step(p, pressed)))
}

/// The central pedal's state after one whole frame: its dispatch only reads.
pub open spec fn frame_step_plain(p: Pedal, pressed: bool) -> Pedal {
    finish_step(start_step(p, pressed))
}

/// Everything one input frame asks the shell to do.
pub struct FrameOutput {
    pub left_actions: Vec<Action>,
    pub central_actions: Vec<Action>,
    pub right_actions: Vec<Action>,
    /// Cancellation signals raised in `start_update`, one per pedal.
    pub cancel_left: bool,
    pub cancel_central: bool,
    pub cancel_right: bool,
}

/// Reads the three pressed flags out of one fixed-size device report: the
/// bytes at offsets 4, 5 and 6 mean pressed exactly when they equal 1.
pub fn decode_report(report: &[u8; 64]) -> (r: (bool, bool, bool))
    ensures
        r.0 == (report@[4] == 1),
        r.1 == (report@[5] == 1),
        r.2 == (report@[6] == 1),
{
    (report[4] == 1, report[5] == 1, report[6] == 1)
}

/// Runs one atomic frame over all three pedals: decode the report, start the
/// frame everywhere (raising cancellations), dispatch each pedal's policy,
/// and commit the new previous-state. Each pedal's outcome is a function of
/// its own prior state and its own report byte alone.
pub fn handle_pedals_input(pedals: &mut Pedals, report: &[u8; 64]) -> (out: FrameOutput)
    ensures
        final(pedals).left == frame_step_hold(old(pedals).left, report@[4] == 1),
        final(pedals).central == frame_step_plain(old(pedals).central, report@[5] == 1),
        final(pedals).right == frame_step_hold(old(pedals).right, report@[6] == 1),
        out.left_actions@ == left_actions(start_step(old(pedals).left, report@[4] == 1)),
        out.central_actions@ == central_actions(start_step(old(pedals).central, report@[5] == 1)),
        out.right_actions@ == right_actions(start_step(old(pedals).right, report@[6] == 1)),
        out.cancel_left == start_cancel(old(pedals).left, report@[4] == 1),
        out.cancel_central == start_cancel(old(pedals).central, report@[5] == 1),
        out.cancel_right == start_cancel(old(pedals).right, report@[6] == 1),
{
    let (left, central, right) = decode_report(report);

    let (cancel_left, cancel_central, cancel_right) = pedals.start_update(left, central, right);

    let left_actions = handle_left_pedal(&mut pedals.left);
    let central_actions = handle_central_pedal(&pedals.central);
    let right_actions = handle_right_pedal(&mut pedals.right);

    pedals.finish_update();

    FrameOutput {
        left_actions,
        central_actions,
        right_actions,
        cancel_left,
        cancel_central,
        cancel_right,
    }
}

/// The exact key events a keystroke action stands for. The assistant combo
/// holds the modifier around the first key and pauses before the second; mode
/// entry is an escape then the literal mode character; mode exit is a single
/// escape. Actions that are not keystrokes expand to nothing.
pub open spec fn key_steps_spec(a: Action, assistant_pause_ms: u64) -> Seq<KeyStep> {
    match a {
        Action::AssistantCombo => seq![
            KeyStep { key: Key::Meta, motion: KeyMotion::Press, pause_before_ms: 0 },
            KeyStep { key: Key::Space, motion: KeyMotion::Click, pause_before_ms: 0 },
            KeyStep { key: Key::Meta, motion: KeyMotion::Release, pause_before_ms: 0 },
            KeyStep {
                key: Key::Tab,
                motion: KeyMotion::Click,
                pause_before_ms: assistant_pause_ms,
            },
        ],
        Action::EnterInsertMode => seq![
            KeyStep { key: Key::Escape, motion: KeyMotion::Click, pause_before_ms: 0 },
            KeyStep { key: Key::Unicode('i'), motion: KeyMotion::Click, pause_before_ms: 0 },
        ],
        Action::ExitInsertMode => seq![
            KeyStep { key: Key::Escape, motion: KeyMotion::Click, pause_before_ms: 0 },
        ],
        _ => Seq::<KeyStep>::empty(),
    }
}

/// Expands a keystroke action into the key events the shell must inject, in
/// order, with the configured pause inside the assistant combo.
pub fn key_steps(action: &Action, assistant_pause_ms: u64) -> (v: Vec<KeyStep>)
    ensures
        v@ == key_steps_spec(*action, assistant_pause_ms),
{
    let mut v: Vec<KeyStep> = Vec::new();
    match action {
        Action::AssistantCombo => {
            v.push(KeyStep { key: Key::Meta, motion: KeyMotion::Press, pause_before_ms: 0 });
            v.push(KeyStep { key: Key::Space, motion: KeyMotion::Click, pause_before_ms: 0 });
            v.push(KeyStep { key: Key::Meta, motion: KeyMotion::Release, pause_before_ms: 0 });
            v.push(
                KeyStep {
                    key: Key::Tab,
                    motion: KeyMotion::Click,
                    pause_before_ms: assistant_pause_ms,
                },
            );
        },
        Action::EnterInsertMode => {
            v.push(KeyStep { key: Key::Escape, motion: KeyMotion::Click, pause_before_ms: 0 });
            v.push(
                KeyStep { key: Key::Unicode('i'), motion: KeyMotion::Click, pause_before_ms: 0 },
            );
        },
        Action::ExitInsertMode => {
            v.push(KeyStep { key: Key::Escape, motion: KeyMotion::Click, pause_before_ms: 0 });
        },
        _ => {},
    }
    proof {
        assert(v@ =~= key_steps_spec(*action, assistant_pause_ms));
    }
    v
}

} // verus!
