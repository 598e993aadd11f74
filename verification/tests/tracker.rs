use nexus_core::analog::Analog;
use nexus_core::control::{Axis, Button};
use nexus_core::event::RawEvent;
use nexus_core::snapshot::build_snapshot;
use nexus_core::state::{Buttons, Controls, DeviceState};
use nexus_core::tracker::Tracker;

fn analog(value: f32) -> Analog {
    Analog::from_bits(value.to_bits())
}

fn pad(name: &str) -> DeviceState {
    DeviceState { name: name.to_string(), uuid: [0x11; 16], controls: Controls::idle() }
}

#[test]
fn new_tracker_knows_no_device() {
    let tracker = Tracker::new();
    assert!(!tracker.knows(0));
    assert!(tracker.lookup(0).is_none());
}

#[test]
fn observe_records_and_replaces() {
    let mut tracker = Tracker::new();
    tracker.observe(2, pad("first"));
    assert!(tracker.knows(2));
    assert!(!tracker.knows(3));
    assert_eq!(tracker.lookup(2), Some(&pad("first")));
    tracker.observe(2, pad("second"));
    assert_eq!(tracker.lookup(2), Some(&pad("second")));
}

#[test]
fn forget_drops_one_device() {
    let mut tracker = Tracker::new();
    tracker.observe(1, pad("one"));
    tracker.observe(2, pad("two"));
    tracker.forget(1);
    assert!(!tracker.knows(1));
    assert_eq!(tracker.lookup(2), Some(&pad("two")));
    tracker.forget(9);
    assert!(tracker.knows(2));
}

#[test]
fn reading_is_needed_for_connections_and_strangers() {
    let mut tracker = Tracker::new();
    let moved = RawEvent::AxisChanged { axis: Axis::LeftStickX, value: analog(0.1), device: 5 };
    assert!(tracker.needs_reading(&RawEvent::Connected { device: 5 }));
    assert!(tracker.needs_reading(&moved));
    assert!(tracker.needs_reading(&RawEvent::Disconnected { device: 5 }));
    tracker.observe(5, pad("five"));
    assert!(tracker.needs_reading(&RawEvent::Connected { device: 5 }));
    assert!(!tracker.needs_reading(&moved));
    assert!(!tracker.needs_reading(&RawEvent::Disconnected { device: 5 }));
}

#[test]
fn reading_is_not_needed_for_dropped_events() {
    let tracker = Tracker::new();
    assert!(!tracker.needs_reading(&RawEvent::ButtonPressed { control: Button::LeftTrigger2, device: 5 }));
    assert!(!tracker.needs_reading(&RawEvent::ButtonReleased { control: Button::RightTrigger2, device: 5 }));
    assert!(!tracker.needs_reading(&RawEvent::Other { device: 5 }));
}

#[test]
fn honor_touches_only_the_device_of_the_event() {
    let mut tracker = Tracker::new();
    tracker.observe(1, pad("one"));
    tracker.observe(2, pad("two"));
    tracker.honor(&RawEvent::ButtonChanged { control: Button::South, value: analog(1.0), device: 1 });
    assert!(tracker.lookup(1).unwrap().controls.buttons.south);
    assert_eq!(tracker.lookup(2), Some(&pad("two")));
    assert_eq!(tracker.lookup(1).unwrap().name, "one");
    assert_eq!(tracker.lookup(1).unwrap().uuid, [0x11; 16]);
    tracker.honor(&RawEvent::ButtonChanged { control: Button::South, value: analog(1.0), device: 3 });
    assert!(!tracker.knows(3));
}

#[test]
fn trigger_pressure_reaches_the_snapshot() {
    let mut tracker = Tracker::new();
    tracker.observe(0, pad("pad"));
    let noise = tracker.process(&RawEvent::ButtonPressed { control: Button::RightTrigger2, device: 0 });
    assert!(noise.is_none());
    let snapshot = tracker
        .process(&RawEvent::ButtonChanged { control: Button::RightTrigger2, value: analog(0.73), device: 0 })
        .unwrap();
    assert_eq!(f32::from_bits(snapshot.axes.rt.to_bits()), 0.73);
    assert_eq!(snapshot.id, 0);
    assert!(snapshot.connected);
    let noise = tracker.process(&RawEvent::ButtonPressed { control: Button::RightTrigger2, device: 0 });
    assert!(noise.is_none());
    let noise = tracker.process(&RawEvent::ButtonReleased { control: Button::RightTrigger2, device: 0 });
    assert!(noise.is_none());
    let snapshot = tracker.process(&RawEvent::ButtonPressed { control: Button::South, device: 0 }).unwrap();
    assert_eq!(f32::from_bits(snapshot.axes.rt.to_bits()), 0.73);
    assert!(!snapshot.buttons.south);
}

#[test]
fn stick_movements_emit_exact_values_in_order() {
    let mut tracker = Tracker::new();
    tracker.observe(0, pad("pad"));
    let first = tracker
        .process(&RawEvent::AxisChanged { axis: Axis::LeftStickX, value: analog(-0.95), device: 0 })
        .unwrap();
    let second = tracker
        .process(&RawEvent::AxisChanged { axis: Axis::LeftStickX, value: analog(0.02), device: 0 })
        .unwrap();
    assert_eq!(f32::from_bits(first.axes.lx.to_bits()), -0.95);
    assert_eq!(f32::from_bits(second.axes.lx.to_bits()), 0.02);
}

#[test]
fn every_snapshot_is_a_full_image() {
    let mut tracker = Tracker::new();
    let mut state = pad("full");
    state.controls.buttons = Buttons::released().with(Button::West, true).with(Button::LeftThumb, true);
    state.controls.ly = analog(-0.5);
    state.controls.lt = Some(analog(0.25));
    tracker.observe(8, state);
    let snapshot = tracker
        .process(&RawEvent::AxisChanged { axis: Axis::RightStickX, value: analog(0.75), device: 8 })
        .unwrap();
    assert!(snapshot.buttons.west);
    assert!(snapshot.buttons.l3);
    assert!(!snapshot.buttons.south);
    assert_eq!(snapshot.axes.ly, analog(-0.5));
    assert_eq!(snapshot.axes.lt, analog(0.25));
    assert_eq!(snapshot.axes.rx, analog(0.75));
    assert_eq!(snapshot.axes.rt, Analog::zero());
    assert_eq!(snapshot.name, "full");
    assert_eq!(snapshot.guid, "11111111111111111111111111111111");
    let expected = build_snapshot(8, true, tracker.lookup(8));
    assert_eq!(snapshot, expected);
}

#[test]
fn disconnection_reports_not_connected_with_last_values() {
    let mut tracker = Tracker::new();
    tracker.observe(3, pad("leaving"));
    tracker.process(&RawEvent::ButtonChanged { control: Button::LeftTrigger2, value: analog(0.8), device: 3 });
    tracker.process(&RawEvent::AxisChanged { axis: Axis::RightStickY, value: analog(-0.6), device: 3 });
    let snapshot = tracker.process(&RawEvent::Disconnected { device: 3 }).unwrap();
    assert!(!snapshot.connected);
    assert_eq!(snapshot.id, 3);
    assert_eq!(snapshot.name, "leaving");
    assert_eq!(f32::from_bits(snapshot.axes.lt.to_bits()), 0.8);
    assert_eq!(f32::from_bits(snapshot.axes.ry.to_bits()), -0.6);
    assert!(tracker.knows(3));
}

#[test]
fn connection_reports_connected() {
    let mut tracker = Tracker::new();
    tracker.observe(3, pad("arriving"));
    let snapshot = tracker.process(&RawEvent::Connected { device: 3 }).unwrap();
    assert!(snapshot.connected);
    assert_eq!(snapshot.name, "arriving");
}

#[test]
fn unknown_device_yields_the_disconnected_default() {
    let mut tracker = Tracker::new();
    let snapshot = tracker
        .process(&RawEvent::ButtonChanged { control: Button::South, value: analog(1.0), device: 77 })
        .unwrap();
    assert_eq!(snapshot, build_snapshot(77, false, None));
    assert!(!snapshot.connected);
    assert_eq!(snapshot.id, 77);
    assert_eq!(snapshot.name, "");
    assert_eq!(snapshot.guid, "");
    assert!(!snapshot.buttons.south);
    assert!(!tracker.knows(77));
}

#[test]
fn dropped_events_leave_no_trace() {
    let mut tracker = Tracker::new();
    tracker.observe(0, pad("pad"));
    tracker.process(&RawEvent::ButtonChanged { control: Button::LeftTrigger2, value: analog(0.4), device: 0 });
    let before = tracker.lookup(0).cloned();
    assert!(tracker.process(&RawEvent::ButtonPressed { control: Button::LeftTrigger2, device: 0 }).is_none());
    assert!(tracker.process(&RawEvent::ButtonReleased { control: Button::LeftTrigger2, device: 0 }).is_none());
    assert!(tracker.process(&RawEvent::Other { device: 0 }).is_none());
    assert_eq!(tracker.lookup(0).cloned(), before);
}

#[test]
fn confirmatory_digital_events_emit_without_change() {
    let mut tracker = Tracker::new();
    tracker.observe(0, pad("pad"));
    let changed = tracker
        .process(&RawEvent::ButtonChanged { control: Button::East, value: analog(0.2), device: 0 })
        .unwrap();
    let pressed = tracker.process(&RawEvent::ButtonPressed { control: Button::East, device: 0 }).unwrap();
    assert_eq!(pressed, changed);
    assert!(!pressed.buttons.east);
    let changed = tracker
        .process(&RawEvent::ButtonChanged { control: Button::East, value: analog(0.5), device: 0 })
        .unwrap();
    let released = tracker.process(&RawEvent::ButtonReleased { control: Button::East, device: 0 }).unwrap();
    assert_eq!(released, changed);
    assert!(released.buttons.east);
}
