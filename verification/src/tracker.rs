//! The poll loop's bookkeeping: the state image of every device that has
//! been observed, and the step that turns one raw event into at most one
//! snapshot.

use std::collections::HashMap;
use vstd::prelude::*;
use vstd::std_specs::hash::*;
use crate::event::RawEvent;
use crate::sanitizer::{sanitize, verdict_of, Verdict};
use crate::control::Button;
use crate::snapshot::{axes_of, build_snapshot, snapshot_of, ControllerSnapshot, SnapshotView};
use crate::state::DeviceState;

verus! {

broadcast use group_hash_axioms;

/// The image after `event` has been honored: the controls of the device it
/// is about change as `Controls::honored` says; a device that is not in the
/// image stays out of it, and no other device changes.
pub open spec fn honored_image(image: Map<usize, DeviceState>, event: RawEvent) -> Map<
    usize,
    DeviceState,
> {
    let device = event.spec_device();
    if image.contains_key(device) {
        image.insert(
            device,
            DeviceState { controls: image[device].controls.honored(event), ..image[device] },
        )
    } else {
        image
    }
}

/// What the image holds for `device`, if anything.
pub open spec fn state_in(image: Map<usize, DeviceState>, device: usize) -> Option<DeviceState> {
    if image.contains_key(device) {
        Some(image[device])
    } else {
        None
    }
}

/// The snapshot that `event` causes, if any: none for a dropped event, else
/// the snapshot of the device as the image holds it once the event has been
/// honored.
pub open spec fn emission_of(image: Map<usize, DeviceState>, event: RawEvent) -> Option<
    SnapshotView,
> {
    match verdict_of(event) {
        Verdict::Drop => None,
        Verdict::Emit { device, connected } => Some(
            snapshot_of(device, connected, state_in(honored_image(image, event), device)),
        ),
    }
}

/// Full image. A snapshot of a known device reports every button and every
/// axis of the device as the image holds it once the event has been
/// honored, and every boolean button but the one that the event reports a
/// magnitude for is as it was before the event.
pub proof fn lemma_emission_is_full_image(image: Map<usize, DeviceState>, event: RawEvent)
    requires
        verdict_of(event) is Emit,
        image.contains_key(event.spec_device()),
    ensures
        emission_of(image, event) is Some,
        emission_of(image, event)->0.id == event.spec_device(),
        emission_of(image, event)->0.name == image[event.spec_device()].name@,
        emission_of(image, event)->0.buttons == honored_image(
            image,
            event,
        )[event.spec_device()].controls.buttons,
        emission_of(image, event)->0.axes == axes_of(honored_image(image, event)[event.spec_device()]),
        forall|button: Button|
            !(event matches RawEvent::ButtonChanged { control, .. } && control == button)
                ==> emission_of(image, event)->0.buttons.spec_get(button)
                == image[event.spec_device()].controls.buttons.spec_get(button),
{
}

/// Disconnection. The snapshot that a disconnection causes says
/// `connected == false`, whether the device is known or not, and for a known
/// device it still reports the last known value of every control.
pub proof fn lemma_disconnection(image: Map<usize, DeviceState>, device: usize)
    ensures
        emission_of(image, RawEvent::Disconnected { device }) is Some,
        emission_of(image, RawEvent::Disconnected { device })->0.connected == false,
        emission_of(image, RawEvent::Disconnected { device })->0.id == device,
        image.contains_key(device) ==> {
            &&& emission_of(image, RawEvent::Disconnected { device })->0.buttons
                == image[device].controls.buttons
            &&& emission_of(image, RawEvent::Disconnected { device })->0.axes == axes_of(image[device])
        },
{
}

/// A stale device. An event about a device that has no state image causes,
/// if any, the disconnected default: no name, no identifier, every button up
/// and every axis at zero.
pub proof fn lemma_unknown_device(image: Map<usize, DeviceState>, event: RawEvent)
    requires
        verdict_of(event) is Emit,
        !image.contains_key(event.spec_device()),
    ensures
        emission_of(image, event) == Some(snapshot_of(event.spec_device(), false, None)),
        honored_image(image, event) == image,
{
}

/// Dropped events have no observable effect: no snapshot, and no change of
/// any state image.
pub proof fn lemma_dropped_has_no_effect(image: Map<usize, DeviceState>, event: RawEvent)
    requires
        verdict_of(event) is Drop,
    ensures
        emission_of(image, event) is None,
        honored_image(image, event) == image,
{
    let device = event.spec_device();
    if image.contains_key(device) {
        assert(image[device].controls.honored(event) == image[device].controls);
        assert(honored_image(image, event) =~= image);
    }
}

/// The state images of the observed devices, by device identifier.
pub struct Tracker {
    devices: HashMap<usize, DeviceState>,
}

impl View for Tracker {
    type V = Map<usize, DeviceState>;

    closed spec fn view(&self) -> Map<usize, DeviceState> {
        self.devices@
    }
}

impl Tracker {
    /// A tracker that has observed no device.
    pub fn new() -> (tracker: Tracker)
        ensures
            tracker@ == Map::<usize, DeviceState>::empty(),
    {
        Tracker { devices: HashMap::new() }
    }

    /// Whether `device` has a state image.
    pub fn knows(&self, device: usize) -> (known: bool)
        ensures
            known == self@.contains_key(device),
    {
        self.devices.contains_key(&device)
    }

    /// The state image of `device`, if it has one.
    pub fn lookup(&self, device: usize) -> (state: Option<&DeviceState>)
        ensures
            match state {
                Some(state) => state_in(self@, device) == Some(*state),
                None => state_in(self@, device) is None,
            },
    {
        self.devices.get(&device)
    }

    /// Whether the input source should be read before `event` is processed:
    /// when the event calls for a snapshot and either announces a connection
    /// or is about a device that has no state image yet.
    pub fn needs_reading(&self, event: &RawEvent) -> (needed: bool)
        ensures
            needed == (verdict_of(*event) is Emit && (*event is Connected || !self@.contains_key(
                event.spec_device(),
            ))),
    {
        match sanitize(event) {
            Verdict::Drop => false,
            Verdict::Emit { device, .. } => {
                match event {
                    RawEvent::Connected { .. } => true,
                    _ => !self.devices.contains_key(&device),
                }
            },
        }
    }

    /// Records what the input source reports of `device`, in place of any
    /// earlier image of it.
    pub fn observe(&mut self, device: usize, state: DeviceState)
        ensures
            final(self)@ == old(self)@.insert(device, state),
    {
        self.devices.insert(device, state);
    }

    /// Drops the state image of `device`, if it has one.
    pub fn forget(&mut self, device: usize)
        ensures
            final(self)@ == old(self)@.remove(device),
    {
        self.devices.remove(&device);
    }

    /// Honors `event` in the state image of its device.
    pub fn honor(&mut self, event: &RawEvent)
        ensures
            final(self)@ == honored_image(old(self)@, *event),
    {
        let device = event.device();
        match self.devices.remove(&device) {
            Some(mut state) => {
                state.controls.honor(event);
                self.devices.insert(device, state);
                assert(self@ =~= honored_image(old(self)@, *event));
            },
            None => {
                assert(self@ =~= old(self)@);
            },
        }
    }

    /// One step of the poll loop: honors `event` and, unless the sanitizer
    /// drops it, returns the snapshot to publish.
    pub fn process(&mut self, event: &RawEvent) -> (emitted: Option<ControllerSnapshot>)
        ensures
            final(self)@ == honored_image(old(self)@, *event),
            match emitted {
                Some(snapshot) => emission_of(old(self)@, *event) == Some(snapshot@),
                None => emission_of(old(self)@, *event) is None,
            },
    {
        self.honor(event);
        match sanitize(event) {
            Verdict::Drop => None,
            Verdict::Emit { device, connected } => Some(
                build_snapshot(device, connected, self.devices.get(&device)),
            ),
        }
    }
}

} // verus!
