//! The state image of one device: what the input source can be asked about
//! it, held as plain values, and how an honored raw event changes it.

use vstd::prelude::*;
use crate::analog::Analog;
use crate::control::{Axis, Button};
use crate::event::RawEvent;
use crate::sanitizer::verdict_of;

verus! {

/// The fourteen boolean buttons of the catalog, `true` for a button held down.
#[derive(Clone, Copy, Debug, PartialEq, Eq, Structural)]
pub struct Buttons {
    pub south: bool,
    pub east: bool,
    pub west: bool,
    pub north: bool,
    pub lb: bool,
    pub rb: bool,
    pub l3: bool,
    pub r3: bool,
    pub start: bool,
    pub select: bool,
    pub d_up: bool,
    pub d_down: bool,
    pub d_left: bool,
    pub d_right: bool,
}

impl Buttons {
    /// Every button up.
    pub open spec fn spec_released() -> Buttons {
        Buttons {
            south: false,
            east: false,
            west: false,
            north: false,
            lb: false,
            rb: false,
            l3: false,
            r3: false,
            start: false,
            select: false,
            d_up: false,
            d_down: false,
            d_left: false,
            d_right: false,
        }
    }

    /// The field of `button`; `false` for a control that has no boolean field.
    pub open spec fn spec_get(self, button: Button) -> bool {
        match button {
            Button::South => self.south,
            Button::East => self.east,
            Button::West => self.west,
            Button::North => self.north,
            Button::LeftTrigger => self.lb,
            Button::RightTrigger => self.rb,
            Button::LeftThumb => self.l3,
            Button::RightThumb => self.r3,
            Button::Start => self.start,
            Button::Select => self.select,
            Button::DPadUp => self.d_up,
            Button::DPadDown => self.d_down,
            Button::DPadLeft => self.d_left,
            Button::DPadRight => self.d_right,
            Button::LeftTrigger2 => false,
            Button::RightTrigger2 => false,
            Button::Other => false,
        }
    }

    /// The same buttons with the field of `button` set to `down`; unchanged
    /// for a control that has no boolean field.
    pub open spec fn spec_with(self, button: Button, down: bool) -> Buttons {
        match button {
            Button::South => Buttons { south: down, ..self },
            Button::East => Buttons { east: down, ..self },
            Button::West => Buttons { west: down, ..self },
            Button::North => Buttons { north: down, ..self },
            Button::LeftTrigger => Buttons { lb: down, ..self },
            Button::RightTrigger => Buttons { rb: down, ..self },
            Button::LeftThumb => Buttons { l3: down, ..self },
            Button::RightThumb => Buttons { r3: down, ..self },
            Button::Start => Buttons { start: down, ..self },
            Button::Select => Buttons { select: down, ..self },
            Button::DPadUp => Buttons { d_up: down, ..self },
            Button::DPadDown => Buttons { d_down: down, ..self },
            Button::DPadLeft => Buttons { d_left: down, ..self },
            Button::DPadRight => Buttons { d_right: down, ..self },
            Button::LeftTrigger2 => self,
            Button::RightTrigger2 => self,
            Button::Other => self,
        }
    }

    #[verifier::when_used_as_spec(spec_released)]
    pub fn released() -> (buttons: Buttons)
        ensures
            buttons == Buttons::spec_released(),
    {
        Buttons {
            south: false,
            east: false,
            west: false,
            north: false,
            lb: false,
            rb: false,
            l3: false,
            r3: false,
            start: false,
            select: false,
            d_up: false,
            d_down: false,
            d_left: false,
            d_right: false,
        }
    }

    #[verifier::when_used_as_spec(spec_get)]
    pub fn get(self, button: Button) -> (down: bool)
        ensures
            down == self.spec_get(button),
    {
        match button {
            Button::South => self.south,
            Button::East => self.east,
            Button::West => self.west,
            Button::North => self.north,
            Button::LeftTrigger => self.lb,
            Button::RightTrigger => self.rb,
            Button::LeftThumb => self.l3,
            Button::RightThumb => self.r3,
            Button::Start => self.start,
            Button::Select => self.select,
            Button::DPadUp => self.d_up,
            Button::DPadDown => self.d_down,
            Button::DPadLeft => self.d_left,
            Button::DPadRight => self.d_right,
            Button::LeftTrigger2 | Button::RightTrigger2 | Button::Other => false,
        }
    }

    #[verifier::when_used_as_spec(spec_with)]
    pub fn with(self, button: Button, down: bool) -> (buttons: Buttons)
        ensures
            buttons == self.spec_with(button, down),
    {
        match button {
            Button::South => Buttons { south: down, ..self },
            Button::East => Buttons { east: down, ..self },
            Button::West => Buttons { west: down, ..self },
            Button::North => Buttons { north: down, ..self },
            Button::LeftTrigger => Buttons { lb: down, ..self },
            Button::RightTrigger => Buttons { rb: down, ..self },
            Button::LeftThumb => Buttons { l3: down, ..self },
            Button::RightThumb => Buttons { r3: down, ..self },
            Button::Start => Buttons { start: down, ..self },
            Button::Select => Buttons { select: down, ..self },
            Button::DPadUp => Buttons { d_up: down, ..self },
            Button::DPadDown => Buttons { d_down: down, ..self },
            Button::DPadLeft => Buttons { d_left: down, ..self },
            Button::DPadRight => Buttons { d_right: down, ..self },
            Button::LeftTrigger2 | Button::RightTrigger2 | Button::Other => self,
        }
    }
}

/// The control values of one device. A trigger that the device reports no
/// pressure for is `None`.
#[derive(Clone, Copy, Debug, PartialEq, Eq)]
pub struct Controls {
    pub buttons: Buttons,
    pub lx: Analog,
    pub ly: Analog,
    pub rx: Analog,
    pub ry: Analog,
    pub lt: Option<Analog>,
    pub rt: Option<Analog>,
}

impl Controls {
    /// Every button up, every stick centred, no trigger pressure known.
    pub open spec fn spec_idle() -> Controls {
        Controls {
            buttons: Buttons::spec_released(),
            lx: Analog::spec_zero(),
            ly: Analog::spec_zero(),
            rx: Analog::spec_zero(),
            ry: Analog::spec_zero(),
            lt: None,
            rt: None,
        }
    }

    /// The values after `event` has been honored.
    ///
    /// A magnitude is authoritative: for a trigger, in its button or its axis
    /// form, it is the trigger's value; for a stick axis it is the axis value;
    /// for any other button it decides, by the press threshold, whether the
    /// button is down. Digital notifications and connection changes alter
    /// nothing.
    pub open spec fn honored(self, event: RawEvent) -> Controls {
        match event {
            RawEvent::ButtonChanged { control, value, .. } => match control {
                Button::LeftTrigger2 => Controls { lt: Some(value), ..self },
                Button::RightTrigger2 => Controls { rt: Some(value), ..self },
                _ => Controls {
                    buttons: self.buttons.spec_with(control, value.at_least_half()),
                    ..self
                },
            },
            RawEvent::AxisChanged { axis, value, .. } => match axis {
                Axis::LeftStickX => Controls { lx: value, ..self },
                Axis::LeftStickY => Controls { ly: value, ..self },
                Axis::RightStickX => Controls { rx: value, ..self },
                Axis::RightStickY => Controls { ry: value, ..self },
                Axis::LeftZ => Controls { lt: Some(value), ..self },
                Axis::RightZ => Controls { rt: Some(value), ..self },
                Axis::Other => self,
            },
            _ => self,
        }
    }

    /// The values after each event of `events` has been honored in turn.
    pub open spec fn replayed(self, events: Seq<RawEvent>) -> Controls
        decreases events.len(),
    {
        if events.len() == 0 {
            self
        } else {
            self.replayed(events.drop_last()).honored(events.last())
        }
    }

    #[verifier::when_used_as_spec(spec_idle)]
    pub fn idle() -> (controls: Controls)
        ensures
            controls == Controls::spec_idle(),
    {
        Controls {
            buttons: Buttons::released(),
            lx: Analog::zero(),
            ly: Analog::zero(),
            rx: Analog::zero(),
            ry: Analog::zero(),
            lt: None,
            rt: None,
        }
    }

    /// Honors `event`: the values become `old(self).honored(event)`.
    pub fn honor(&mut self, event: &RawEvent)
        ensures
            *final(self) == old(self).honored(*event),
    {
        match event {
            RawEvent::ButtonChanged { control, value, .. } => match control {
                Button::LeftTrigger2 => { self.lt = Some(*value); },
                Button::RightTrigger2 => { self.rt = Some(*value); },
                _ => { self.buttons = self.buttons.with(*control, value.is_down()); },
            },
            RawEvent::AxisChanged { axis, value, .. } => match axis {
                Axis::LeftStickX => { self.lx = *value; },
                Axis::LeftStickY => { self.ly = *value; },
                Axis::RightStickX => { self.rx = *value; },
                Axis::RightStickY => { self.ry = *value; },
                Axis::LeftZ => { self.lt = Some(*value); },
                Axis::RightZ => { self.rt = Some(*value); },
                Axis::Other => {},
            },
            _ => {},
        }
    }
}

/// The magnitude of the last `ButtonChanged` notification about `button`
/// among `events`, if there is one.
pub open spec fn last_magnitude(events: Seq<RawEvent>, button: Button) -> Option<Analog>
    decreases events.len(),
{
    if events.len() == 0 {
        None
    } else {
        match events.last() {
            RawEvent::ButtonChanged { control, value, .. } => if control == button {
                Some(value)
            } else {
                last_magnitude(events.drop_last(), button)
            },
            _ => last_magnitude(events.drop_last(), button),
        }
    }
}

/// Whether `event` carries a pressure for the left trigger (`left`) or the
/// right one, in the trigger's button form or its axis form.
pub open spec fn carries_pressure(event: RawEvent, left: bool) -> bool {
    match event {
        RawEvent::ButtonChanged { control, .. } => control == if left {
            Button::LeftTrigger2
        } else {
            Button::RightTrigger2
        },
        RawEvent::AxisChanged { axis, .. } => axis == if left {
            Axis::LeftZ
        } else {
            Axis::RightZ
        },
        _ => false,
    }
}

/// The pressure that `event` carries for the left trigger (`left`) or the
/// right one, if it carries one.
pub open spec fn pressure_of(event: RawEvent, left: bool) -> Option<Analog> {
    match event {
        RawEvent::ButtonChanged { value, .. } => if carries_pressure(event, left) {
            Some(value)
        } else {
            None
        },
        RawEvent::AxisChanged { value, .. } => if carries_pressure(event, left) {
            Some(value)
        } else {
            None
        },
        _ => None,
    }
}

/// The last pressure that `events` carry for the left trigger (`left`) or
/// the right one, if they carry any.
pub open spec fn last_pressure(events: Seq<RawEvent>, left: bool) -> Option<Analog>
    decreases events.len(),
{
    if events.len() == 0 {
        None
    } else {
        match pressure_of(events.last(), left) {
            Some(value) => Some(value),
            None => last_pressure(events.drop_last(), left),
        }
    }
}

/// Digital noise. A pressed or released notification about a trigger is
/// dropped, and no pressed or released notification, about any control,
/// changes a control value.
pub proof fn lemma_digital_changes_nothing(controls: Controls, event: RawEvent, control: Button)
    requires
        event.is_digital_of(control),
    ensures
        controls.honored(event) == controls,
        control.spec_is_analog_sensitive() ==> verdict_of(event) is Drop,
{
}

/// Only a magnitude moves a trigger. If honoring `event` changes the value
/// of a trigger, then `event` carries a pressure for that trigger.
pub proof fn lemma_trigger_moves_by_pressure_only(controls: Controls, event: RawEvent)
    ensures
        controls.honored(event).lt != controls.lt ==> carries_pressure(event, true),
        controls.honored(event).rt != controls.rt ==> carries_pressure(event, false),
{
}

/// A magnitude is reported as it is: after a notification that carries a
/// pressure for a trigger, or a value for a stick axis, the control holds
/// exactly that magnitude.
pub proof fn lemma_magnitude_is_exact(controls: Controls, device: usize, value: Analog)
    ensures
        controls.honored(RawEvent::ButtonChanged { control: Button::LeftTrigger2, value, device }).lt
            == Some(value),
        controls.honored(RawEvent::ButtonChanged { control: Button::RightTrigger2, value, device }).rt
            == Some(value),
        controls.honored(RawEvent::AxisChanged { axis: Axis::LeftZ, value, device }).lt == Some(value),
        controls.honored(RawEvent::AxisChanged { axis: Axis::RightZ, value, device }).rt == Some(value),
        controls.honored(RawEvent::AxisChanged { axis: Axis::LeftStickX, value, device }).lx == value,
        controls.honored(RawEvent::AxisChanged { axis: Axis::LeftStickY, value, device }).ly == value,
        controls.honored(RawEvent::AxisChanged { axis: Axis::RightStickX, value, device }).rx == value,
        controls.honored(RawEvent::AxisChanged { axis: Axis::RightStickY, value, device }).ry == value,
{
}

/// Setting one button and reading another: the button that was set reads
/// as it was set, every other button as before.
pub proof fn lemma_with_then_get(buttons: Buttons, set: Button, down: bool, read: Button)
    ensures
        buttons.spec_with(set, down).spec_get(read) == if read == set && set.spec_is_digital() {
            down
        } else {
            buttons.spec_get(read)
        },
{
    match set {
        Button::South => {},
        Button::East => {},
        Button::West => {},
        Button::North => {},
        Button::LeftTrigger => {},
        Button::RightTrigger => {},
        Button::LeftThumb => {},
        Button::RightThumb => {},
        Button::Start => {},
        Button::Select => {},
        Button::DPadUp => {},
        Button::DPadDown => {},
        Button::DPadLeft => {},
        Button::DPadRight => {},
        Button::LeftTrigger2 => {},
        Button::RightTrigger2 => {},
        Button::Other => {},
    }
}

/// One event and one boolean button: the button follows the press threshold
/// where the event reports a magnitude for it, and is as before otherwise.
pub proof fn lemma_honored_button(controls: Controls, event: RawEvent, button: Button)
    requires
        button.spec_is_digital(),
    ensures
        controls.honored(event).buttons.spec_get(button) == match event {
            RawEvent::ButtonChanged { control, value, .. } => if control == button {
                value.at_least_half()
            } else {
                controls.buttons.spec_get(button)
            },
            _ => controls.buttons.spec_get(button),
        },
{
    match event {
        RawEvent::ButtonChanged { control, value, .. } => {
            lemma_with_then_get(controls.buttons, control, value.at_least_half(), button);
        },
        _ => {},
    }
}

/// The digital story. Whatever digital and analog notifications are
/// interleaved, a boolean button is down exactly when the last magnitude
/// reported for it reached the press threshold; a button that no magnitude
/// was reported for is as it was.
pub proof fn lemma_digital_story(controls: Controls, events: Seq<RawEvent>, button: Button)
    requires
        button.spec_is_digital(),
    ensures
        controls.replayed(events).buttons.spec_get(button) == match last_magnitude(events, button) {
            Some(value) => value.at_least_half(),
            None => controls.buttons.spec_get(button),
        },
    decreases events.len(),
{
    if events.len() > 0 {
        lemma_digital_story(controls, events.drop_last(), button);
        lemma_honored_button(controls.replayed(events.drop_last()), events.last(), button);
    }
}

/// The trigger story. Whatever notifications are interleaved, a trigger
/// holds exactly the last pressure reported for it, in either form; a
/// trigger that no pressure was reported for is as it was. Pressed and
/// released notifications have no part in it.
pub proof fn lemma_trigger_story(controls: Controls, events: Seq<RawEvent>, left: bool)
    ensures
        (if left {
            controls.replayed(events).lt
        } else {
            controls.replayed(events).rt
        }) == match last_pressure(events, left) {
            Some(value) => Some(value),
            None => if left {
                controls.lt
            } else {
                controls.rt
            },
        },
    decreases events.len(),
{
    if events.len() > 0 {
        lemma_trigger_story(controls, events.drop_last(), left);
    }
}

/// What the input source knows of one device: its name, its sixteen-byte
/// identifier and its control values.
#[derive(Clone, Debug, PartialEq, Eq)]
pub struct DeviceState {
    pub name: String,
    pub uuid: [u8; 16],
    pub controls: Controls,
}

} // verus!
