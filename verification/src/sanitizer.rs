//! The trigger sanitizer: which raw events call for a snapshot.
//!
//! A driver tells two stories about a pressure-sensitive trigger, a coarse
//! pressed/released pair and a continuous magnitude. The magnitude is the
//! truth; the pair is noise and is dropped. For every other button the digital
//! pair is confirmatory: it calls for a snapshot and changes no state.

use vstd::prelude::*;
use crate::event::RawEvent;

verus! {

/// What the sanitizer decides about one raw event.
#[derive(Clone, Copy, Debug, PartialEq, Eq, Structural)]
pub enum Verdict {
    /// Build and publish a snapshot of `device`; `connected` is `false` only
    /// for a disconnection.
    Emit { device: usize, connected: bool },
    /// No observable effect.
    Drop,
}

/// The sanitization policy.
pub open spec fn verdict_of(event: RawEvent) -> Verdict {
    match event {
        RawEvent::Connected { device } => Verdict::Emit { device, connected: true },
        RawEvent::Disconnected { device } => Verdict::Emit { device, connected: false },
        RawEvent::ButtonPressed { control, device } => if control.is_analog_sensitive() {
            Verdict::Drop
        } else {
            Verdict::Emit { device, connected: true }
        },
        RawEvent::ButtonReleased { control, device } => if control.is_analog_sensitive() {
            Verdict::Drop
        } else {
            Verdict::Emit { device, connected: true }
        },
        RawEvent::ButtonChanged { device, .. } => Verdict::Emit { device, connected: true },
        RawEvent::AxisChanged { device, .. } => Verdict::Emit { device, connected: true },
        RawEvent::Other { .. } => Verdict::Drop,
    }
}

/// Decides whether `event` calls for a snapshot, and of which device.
pub fn sanitize(event: &RawEvent) -> (verdict: Verdict)
    ensures
        verdict == verdict_of(*event),
{
    match event {
        RawEvent::Connected { device } => Verdict::Emit { device: *device, connected: true },
        RawEvent::Disconnected { device } => Verdict::Emit { device: *device, connected: false },
        RawEvent::ButtonPressed { control, device } | RawEvent::ButtonReleased { control, device } => {
            if control.is_analog_sensitive() {
                Verdict::Drop
            } else {
                Verdict::Emit { device: *device, connected: true }
            }
        },
        RawEvent::ButtonChanged { device, .. } | RawEvent::AxisChanged { device, .. } => {
            Verdict::Emit { device: *device, connected: true }
        },
        RawEvent::Other { .. } => Verdict::Drop,
    }
}

} // verus!
