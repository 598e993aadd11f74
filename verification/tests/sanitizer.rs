use nexus_core::analog::Analog;
use nexus_core::control::{Axis, Button};
use nexus_core::event::RawEvent;
use nexus_core::sanitizer::{sanitize, Verdict};

const BOOLEAN_BUTTONS: [Button; 14] = [
    Button::South,
    Button::East,
    Button::West,
    Button::North,
    Button::LeftTrigger,
    Button::RightTrigger,
    Button::LeftThumb,
    Button::RightThumb,
    Button::Start,
    Button::Select,
    Button::DPadUp,
    Button::DPadDown,
    Button::DPadLeft,
    Button::DPadRight,
];

fn analog(value: f32) -> Analog {
    Analog::from_bits(value.to_bits())
}

#[test]
fn connection_changes_always_emit() {
    assert_eq!(sanitize(&RawEvent::Connected { device: 4 }), Verdict::Emit { device: 4, connected: true });
    assert_eq!(
        sanitize(&RawEvent::Disconnected { device: 4 }),
        Verdict::Emit { device: 4, connected: false }
    );
}

#[test]
fn digital_trigger_events_are_dropped() {
    for control in [Button::LeftTrigger2, Button::RightTrigger2] {
        assert_eq!(sanitize(&RawEvent::ButtonPressed { control, device: 0 }), Verdict::Drop);
        assert_eq!(sanitize(&RawEvent::ButtonReleased { control, device: 0 }), Verdict::Drop);
    }
}

#[test]
fn digital_events_of_other_buttons_emit() {
    for control in BOOLEAN_BUTTONS {
        assert_eq!(
            sanitize(&RawEvent::ButtonPressed { control, device: 2 }),
            Verdict::Emit { device: 2, connected: true }
        );
        assert_eq!(
            sanitize(&RawEvent::ButtonReleased { control, device: 2 }),
            Verdict::Emit { device: 2, connected: true }
        );
    }
    assert_eq!(
        sanitize(&RawEvent::ButtonPressed { control: Button::Other, device: 2 }),
        Verdict::Emit { device: 2, connected: true }
    );
}

#[test]
fn analog_events_emit_for_every_control() {
    for control in [Button::South, Button::LeftTrigger2, Button::RightTrigger2, Button::Other] {
        assert_eq!(
            sanitize(&RawEvent::ButtonChanged { control, value: analog(0.1), device: 7 }),
            Verdict::Emit { device: 7, connected: true }
        );
    }
    for axis in [Axis::LeftStickX, Axis::RightStickY, Axis::LeftZ, Axis::RightZ, Axis::Other] {
        assert_eq!(
            sanitize(&RawEvent::AxisChanged { axis, value: analog(-0.4), device: 7 }),
            Verdict::Emit { device: 7, connected: true }
        );
    }
}

#[test]
fn analog_events_below_the_threshold_still_emit() {
    assert_eq!(
        sanitize(&RawEvent::ButtonChanged { control: Button::East, value: analog(0.0), device: 1 }),
        Verdict::Emit { device: 1, connected: true }
    );
    assert_eq!(
        sanitize(&RawEvent::AxisChanged { axis: Axis::LeftStickX, value: analog(0.02), device: 1 }),
        Verdict::Emit { device: 1, connected: true }
    );
}

#[test]
fn other_notifications_are_dropped() {
    assert_eq!(sanitize(&RawEvent::Other { device: 5 }), Verdict::Drop);
}

#[test]
fn event_names_its_device() {
    assert_eq!(RawEvent::Connected { device: 11 }.device(), 11);
    assert_eq!(RawEvent::Disconnected { device: 12 }.device(), 12);
    assert_eq!(RawEvent::ButtonPressed { control: Button::South, device: 13 }.device(), 13);
    assert_eq!(RawEvent::ButtonReleased { control: Button::South, device: 14 }.device(), 14);
    assert_eq!(
        RawEvent::ButtonChanged { control: Button::South, value: analog(1.0), device: 15 }.device(),
        15
    );
    assert_eq!(RawEvent::AxisChanged { axis: Axis::LeftZ, value: analog(1.0), device: 16 }.device(), 16);
    assert_eq!(RawEvent::Other { device: 17 }.device(), 17);
}

#[test]
fn catalog_classification() {
    assert!(Button::LeftTrigger2.is_analog_sensitive());
    assert!(Button::RightTrigger2.is_analog_sensitive());
    assert!(!Button::LeftTrigger.is_analog_sensitive());
    assert!(!Button::RightTrigger.is_analog_sensitive());
    assert!(!Button::Other.is_analog_sensitive());
    for control in BOOLEAN_BUTTONS {
        assert!(control.is_digital());
        assert!(!control.is_analog_sensitive());
    }
    assert!(!Button::LeftTrigger2.is_digital());
    assert!(!Button::RightTrigger2.is_digital());
    assert!(!Button::Other.is_digital());
    assert!(Axis::LeftZ.is_analog_sensitive());
    assert!(Axis::RightZ.is_analog_sensitive());
    assert!(!Axis::LeftStickX.is_analog_sensitive());
    assert!(!Axis::Other.is_analog_sensitive());
}
