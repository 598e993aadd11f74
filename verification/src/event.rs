//! Raw events, as the input source reports them.

use vstd::prelude::*;
use crate::analog::Analog;
use crate::control::{Axis, Button};

verus! {

/// One notification of the input source. Each carries the identifier of the
/// device it is about; the identifier is a key and is never interpreted.
#[derive(Clone, Copy, Debug, PartialEq, Eq, Structural)]
pub enum RawEvent {
    Connected { device: usize },
    Disconnected { device: usize },
    ButtonPressed { control: Button, device: usize },
    ButtonReleased { control: Button, device: usize },
    ButtonChanged { control: Button, value: Analog, device: usize },
    AxisChanged { axis: Axis, value: Analog, device: usize },
    /// Any other notification: it carries nothing that a snapshot reports.
    Other { device: usize },
}

impl RawEvent {
    pub open spec fn spec_device(self) -> usize {
        match self {
            RawEvent::Connected { device } => device,
            RawEvent::Disconnected { device } => device,
            RawEvent::ButtonPressed { device, .. } => device,
            RawEvent::ButtonReleased { device, .. } => device,
            RawEvent::ButtonChanged { device, .. } => device,
            RawEvent::AxisChanged { device, .. } => device,
            RawEvent::Other { device } => device,
        }
    }

    /// A digital notification: pressed or released, with no magnitude.
    pub open spec fn is_digital_of(self, control: Button) -> bool {
        match self {
            RawEvent::ButtonPressed { control: c, .. } => c == control,
            RawEvent::ButtonReleased { control: c, .. } => c == control,
            _ => false,
        }
    }

    /// The device that the event is about.
    #[verifier::when_used_as_spec(spec_device)]
    pub fn device(self) -> (device: usize)
        ensures
            device == self.spec_device(),
    {
        match self {
            RawEvent::Connected { device } => device,
            RawEvent::Disconnected { device } => device,
            RawEvent::ButtonPressed { device, .. } => device,
            RawEvent::ButtonReleased { device, .. } => device,
            RawEvent::ButtonChanged { device, .. } => device,
            RawEvent::AxisChanged { device, .. } => device,
            RawEvent::Other { device } => device,
        }
    }
}

} // verus!
