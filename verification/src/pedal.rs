//! Per-button state machine.
//!
//! A `Pedal` tracks the pressed state of one physical button across input
//! frames, an edge-detection history (`prev_pressed`), a `holding` flag that
//! records whether a hold action has committed, and a handle to at most one
//! outstanding deferred task. The deferred task itself runs outside the
//! library; here it is modelled by [`DeferredTask`], which carries the
//! cooperative cancellation flag the task observes before performing any
//! externally visible effect.

use vstd::prelude::*;

verus! {

/// Model of one cancellable deferred unit of work owned by a pedal.
///
/// The unverified shell pairs a value of this type with the real spawned
/// task; `cancelled == true` means the cancellation signal has been raised,
/// and the task must not perform its effect once that is observed.
#[derive(Clone, Copy, PartialEq, Eq, Debug)]
pub struct DeferredTask {
    pub cancelled: bool,
}

/// State machine for one physical pedal button.
pub struct Pedal {
    /// Pressed state as of the current frame.
    pub pressed: bool,
    /// Pressed state as of the previous frame.
    pub prev_pressed: bool,
    /// True once a hold action has committed and is considered active.
    pub holding: bool,
    /// At most one outstanding deferred task.
    pub future_handle: Option<DeferredTask>,
}

impl Pedal {
    /// The pedal transitioned from not pressed to pressed in this frame.
    pub open spec fn spec_just_pressed(self) -> bool {
        !self.prev_pressed && self.pressed
    }

    /// The pedal transitioned from pressed to not pressed in this frame.
    pub open spec fn spec_released(self) -> bool {
        self.prev_pressed && !self.pressed
    }

    /// An outstanding deferred task that has not been cancelled.
    pub open spec fn task_live(self) -> bool {
        self.future_handle matches Some(t) && !t.cancelled
    }

    /// An idle pedal: not pressed, no history, no hold, no task.
    pub open spec fn is_idle(self) -> bool {
        &&& !self.pressed
        &&& !self.prev_pressed
        &&& !self.holding
        &&& self.future_handle is None
    }

    pub fn new() -> (p: Pedal)
        ensures
            p.is_idle(),
    {
        Pedal { pressed: false, prev_pressed: false, holding: false, future_handle: None }
    }

    /// Begins a frame: records the new pressed state and, when the pedal is
    /// up while a deferred task is outstanding, raises that task's
    /// cancellation flag. Returns whether a cancellation signal was raised,
    /// so the caller can also abort the real task.
    pub fn start_update(&mut self, pressed: bool) -> (cancel: bool)
        ensures
            cancel == (!pressed && old(self).future_handle is Some),
            final(self).pressed == pressed,
            final(self).prev_pressed == old(self).prev_pressed,
            final(self).holding == old(self).holding,
            final(self).future_handle == (if cancel {
                Some(DeferredTask { cancelled: true })
            } else {
                old(self).future_handle
            }),
    {
        let cancel = !pressed && self.future_handle.is_some();
        if cancel {
            self.future_handle = Some(DeferredTask { cancelled: true });
        }
        self.pressed = pressed;
        cancel
    }

    pub fn is_just_pressed(&self) -> (r: bool)
        ensures
            r == self.spec_just_pressed(),
    {
        !self.prev_pressed && self.pressed
    }

    /// Replaces the stored deferred-task handle. Ownership transfer only:
    /// this does not cancel the previous task.
    pub fn set_future(&mut self, handle: Option<DeferredTask>)
        ensures
            final(self).future_handle == handle,
            final(self).pressed == old(self).pressed,
            final(self).prev_pressed == old(self).prev_pressed,
            final(self).holding == old(self).holding,
    {
        self.future_handle = handle;
    }

    pub fn set_holding(&mut self, val: bool)
        ensures
            final(self).holding == val,
            final(self).pressed == old(self).pressed,
            final(self).prev_pressed == old(self).prev_pressed,
            final(self).future_handle == old(self).future_handle,
    {
        self.holding = val;
    }

    pub fn is_holding(&self) -> (r: bool)
        ensures
            r == self.holding,
    {
        self.holding
    }

    pub fn is_released(&self) -> (r: bool)
        ensures
            r == self.spec_released(),
    {
        self.prev_pressed && !self.pressed
    }

    /// Commits the frame: the current pressed state becomes the previous one.
    pub fn finish_update(&mut self)
        ensures
            final(self).pressed == old(self).pressed,
            final(self).prev_pressed == old(self).pressed,
            final(self).holding == old(self).holding,
            final(self).future_handle == old(self).future_handle,
    {
        self.prev_pressed = self.pressed;
    }
}

/// The three pedals of the device, updated as one atomic frame.
///
/// Each pedal's state is exclusively owned here and read or written by no
/// other pedal's logic; the three are independent.
pub struct Pedals {
    pub left: Pedal,
    pub central: Pedal,
    pub right: Pedal,
}

impl Pedals {
    pub fn new() -> (g: Pedals)
        ensures
            g.left.is_idle(),
            g.central.is_idle(),
            g.right.is_idle(),
    {
        Pedals { left: Pedal::new(), central: Pedal::new(), right: Pedal::new() }
    }

    /// Starts a frame on all three pedals. Returns, per pedal, whether a
    /// cancellation signal was raised (left, central, right).
    pub fn start_update(&mut self, left: bool, central: bool, right: bool) -> (cancels: (
        bool,
        bool,
        bool,
    ))
        ensures
            cancels.0 == (!left && old(self).left.future_handle is Some),
            cancels.1 == (!central && old(self).central.future_handle is Some),
            cancels.2 == (!right && old(self).right.future_handle is Some),
            final(self).left == start_step(old(self).left, left),
            final(self).central == start_step(old(self).central, central),
            final(self).right == start_step(old(self).right, right),
    {
        let c0 = self.left.start_update(left);
        let c1 = self.central.start_update(central);
        let c2 = self.right.start_update(right);
        (c0, c1, c2)
    }

    /// Commits the frame on all three pedals.
    pub fn finish_update(&mut self)
        ensures
            final(self).left == finish_step(old(self).left),
            final(self).central == finish_step(old(self).central),
            final(self).right == finish_step(old(self).right),
    {
        self.left.finish_update();
        self.central.finish_update();
        self.right.finish_update();
    }
}

/// What `Pedal::start_update` does to the pedal's state.
pub open spec fn start_step(p: Pedal, pressed: bool) -> Pedal {
    Pedal {
        pressed,
        future_handle: if !pressed && p.future_handle is Some {
            Some(DeferredTask { cancelled: true })
        } else {
            p.future_handle
        },
        ..p
    }
}

/// Whether `Pedal::start_update` raises a cancellation signal.
pub open spec fn start_cancel(p: Pedal, pressed: bool) -> bool {
    !pressed && p.future_handle is Some
}

/// What `Pedal::finish_update` does to the pedal's state.
pub open spec fn finish_step(p: Pedal) -> Pedal {
    Pedal { prev_pressed: p.pressed, ..p }
}

} // verus!
