//! Core logic of a three-button USB foot-pedal controller.
//!
//! Each physical button is modelled by a [`pedal::Pedal`] state machine that
//! distinguishes taps from holds and owns at most one cancellable deferred
//! task. The library decides, per input frame, which OS-level actions to
//! perform; an unverified shell performs them (device reads, keystroke
//! injection, layout switching) and feeds the outcomes back in.
//!
//! [`pedal`] holds the per-button state machine and the three-pedal group;
//! [`dispatch`] the per-pedal behaviour policies and the frame protocol;
//! [`layout`] the judgement of layout-selection outcomes and their fallback;
//! [`config`] the fixed constants the policies are parameterised over; and
//! [`trace`] the proved laws of whole event sequences.

pub mod config;
pub mod dispatch;
pub mod layout;
pub mod pedal;
pub mod trace;
