//! The controller snapshot and its builder.
//!
//! A snapshot is a full image of one device, never a difference: every button
//! and every axis is read from the device's state, whichever control caused
//! the emission.

use vstd::prelude::*;
use vstd::string::StringExecFns;
use crate::analog::Analog;
use crate::state::{Buttons, DeviceState};

verus! {

/// The six analog fields of a snapshot.
#[derive(Clone, Copy, Debug, PartialEq, Eq, Structural)]
pub struct Axes {
    pub lx: Analog,
    pub ly: Analog,
    pub rx: Analog,
    pub ry: Analog,
    pub lt: Analog,
    pub rt: Analog,
}

/// The unit of output: the complete state of one device.
#[derive(Clone, Debug, PartialEq, Eq)]
pub struct ControllerSnapshot {
    pub id: usize,
    pub connected: bool,
    pub name: String,
    pub guid: String,
    pub buttons: Buttons,
    pub axes: Axes,
}

/// A snapshot as a mathematical value.
pub struct SnapshotView {
    pub id: usize,
    pub connected: bool,
    pub name: Seq<char>,
    pub guid: Seq<char>,
    pub buttons: Buttons,
    pub axes: Axes,
}

impl View for ControllerSnapshot {
    type V = SnapshotView;

    open spec fn view(&self) -> SnapshotView {
        SnapshotView {
            id: self.id,
            connected: self.connected,
            name: self.name@,
            guid: self.guid@,
            buttons: self.buttons,
            axes: self.axes,
        }
    }
}

/// The sixteen lowercase hexadecimal digits, in order.
pub open spec fn hex_digits() -> Seq<char> {
    seq!['0', '1', '2', '3', '4', '5', '6', '7', '8', '9', 'a', 'b', 'c', 'd', 'e', 'f']
}

/// The text of `bytes` in lowercase hexadecimal: two digits for each byte,
/// the high half first, the bytes in their order.
pub open spec fn hex_of(bytes: Seq<u8>) -> Seq<char> {
    Seq::new(
        2 * bytes.len(),
        |i: int|
            if i % 2 == 0 {
                hex_digits()[bytes[i / 2] as int / 16]
            } else {
                hex_digits()[bytes[i / 2] as int % 16]
            },
    )
}

/// The axes that a snapshot reports for `state`: each stick axis as it is,
/// each trigger by its pressure, or zero where none is known.
pub open spec fn axes_of(state: DeviceState) -> Axes {
    Axes {
        lx: state.controls.lx,
        ly: state.controls.ly,
        rx: state.controls.rx,
        ry: state.controls.ry,
        lt: match state.controls.lt {
            Some(value) => value,
            None => Analog::spec_zero(),
        },
        rt: match state.controls.rt {
            Some(value) => value,
            None => Analog::spec_zero(),
        },
    }
}

/// The snapshot of `device`.
///
/// Of a known device it is the full image of `state`, connected unless the
/// cause was a disconnection. Of a device that the input source no longer
/// knows it is the disconnected default: no name, no identifier, every button
/// up and every axis at zero.
pub open spec fn snapshot_of(device: usize, connected: bool, state: Option<DeviceState>) -> SnapshotView {
    match state {
        Some(state) => SnapshotView {
            id: device,
            connected,
            name: state.name@,
            guid: hex_of(state.uuid@),
            buttons: state.controls.buttons,
            axes: axes_of(state),
        },
        None => SnapshotView {
            id: device,
            connected: false,
            name: Seq::empty(),
            guid: Seq::empty(),
            buttons: Buttons::spec_released(),
            axes: Axes {
                lx: Analog::spec_zero(),
                ly: Analog::spec_zero(),
                rx: Analog::spec_zero(),
                ry: Analog::spec_zero(),
                lt: Analog::spec_zero(),
                rt: Analog::spec_zero(),
            },
        },
    }
}

/// The text of one hexadecimal digit.
fn hex_digit_text(nibble: u8) -> (text: &'static str)
    requires
        nibble < 16,
    ensures
        text@ == seq![hex_digits()[nibble as int]],
{
    proof {
        reveal_strlit("0");
        reveal_strlit("1");
        reveal_strlit("2");
        reveal_strlit("3");
        reveal_strlit("4");
        reveal_strlit("5");
        reveal_strlit("6");
        reveal_strlit("7");
        reveal_strlit("8");
        reveal_strlit("9");
        reveal_strlit("a");
        reveal_strlit("b");
        reveal_strlit("c");
        reveal_strlit("d");
        reveal_strlit("e");
        reveal_strlit("f");
    }
    let text = match nibble {
        0 => "0",
        1 => "1",
        2 => "2",
        3 => "3",
        4 => "4",
        5 => "5",
        6 => "6",
        7 => "7",
        8 => "8",
        9 => "9",
        10 => "a",
        11 => "b",
        12 => "c",
        13 => "d",
        14 => "e",
        _ => "f",
    };
    assert(text@ =~= seq![hex_digits()[nibble as int]]);
    text
}

/// Writes a device identifier as text: thirty-two lowercase hexadecimal
/// digits, two for each byte, the first byte first.
pub fn uuid_to_string(uuid: [u8; 16]) -> (text: String)
    ensures
        text@ == hex_of(uuid@),
{
    let mut text = String::new();
    let mut i: usize = 0;
    while i < 16
        invariant
            i <= 16,
            text@ == hex_of(uuid@.subrange(0, i as int)),
        decreases 16 - i,
    {
        let byte = uuid[i];
        let high = hex_digit_text(byte / 16);
        let low = hex_digit_text(byte % 16);
        let ghost before = text@;
        text.append(high);
        text.append(low);
        proof {
            let shorter = uuid@.subrange(0, i as int);
            let longer = uuid@.subrange(0, i as int + 1);
            assert(longer[i as int] == byte);
            assert forall|k: int| 0 <= k < 2 * longer.len() implies (before + high@ + low@)[k]
                == hex_of(longer)[k] by {
                if k < 2 * i {
                    assert(shorter[k / 2] == longer[k / 2]);
                    assert(before[k] == hex_of(shorter)[k]);
                }
            }
            assert(text@ =~= hex_of(longer));
        }
        i += 1;
    }
    assert(uuid@.subrange(0, 16) =~= uuid@);
    text
}

/// Builds the snapshot of `device` from the state that the input source
/// holds for it, or the disconnected default where it holds none.
pub fn build_snapshot(device: usize, connected: bool, state: Option<&DeviceState>) -> (snapshot:
    ControllerSnapshot)
    ensures
        snapshot@ == snapshot_of(
            device,
            connected,
            match state {
                Some(state) => Some(*state),
                None => None,
            },
        ),
{
    match state {
        Some(state) => {
            let lt = match state.controls.lt {
                Some(value) => value,
                None => Analog::zero(),
            };
            let rt = match state.controls.rt {
                Some(value) => value,
                None => Analog::zero(),
            };
            ControllerSnapshot {
                id: device,
                connected,
                name: state.name.clone(),
                guid: uuid_to_string(state.uuid),
                buttons: state.controls.buttons,
                axes: Axes {
                    lx: state.controls.lx,
                    ly: state.controls.ly,
                    rx: state.controls.rx,
                    ry: state.controls.ry,
                    lt,
                    rt,
                },
            }
        },
        None => ControllerSnapshot {
            id: device,
            connected: false,
            name: String::new(),
            guid: String::new(),
            buttons: Buttons::released(),
            axes: Axes {
                lx: Analog::zero(),
                ly: Analog::zero(),
                rx: Analog::zero(),
                ry: Analog::zero(),
                lt: Analog::zero(),
                rt: Analog::zero(),
            },
        },
    }
}

} // verus!
