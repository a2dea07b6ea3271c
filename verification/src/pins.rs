//! Pin assignment: bind the four physical bus pins to their roles.
//!
//! The bus uses four pins of GPIO port A. The chip-select pin is a
//! plain push-pull output driven by the framing controller; the clock
//! and the two data pins are handed to the SPI peripheral in its
//! alternate-function mode. Each pin is bound to exactly one role, and
//! the binding is fixed for the lifetime of the program.

use vstd::prelude::*;

verus! {

/// The role a pin plays on the bus.
#[derive(Clone, Copy, Debug, PartialEq, Eq, Structural)]
pub enum PinRole {
    /// Bus clock, driven by the master.
    Clock,
    /// Data from the master to the peer.
    DataOut,
    /// Data from the peer to the master.
    DataIn,
    /// Chip select, framing each transaction.
    ChipSelect,
}

/// The electrical mode a pin is configured into.
#[derive(Clone, Copy, Debug, PartialEq, Eq, Structural)]
pub enum ElectricalMode {
    /// General-purpose push-pull digital output.
    PushPullOutput,
    /// Dedicated alternate function of the bus peripheral; not usable
    /// as generic I/O while so configured.
    AlternateFunction,
}

/// One physical pin of port A bound to a bus role.
#[derive(Clone, Copy, Debug, PartialEq, Eq, Structural)]
pub struct PinBinding {
    /// Pin index on port A, 0..=15.
    pub pin: u8,
    /// Electrical mode the pin is configured into.
    pub mode: ElectricalMode,
    /// The single role this pin serves.
    pub role: PinRole,
}

/// The electrical mode each role requires: chip select is driven
/// directly as a push-pull output, the other three belong to the bus
/// peripheral's alternate function.
pub open spec fn mode_for_role(role: PinRole) -> ElectricalMode {
    match role {
        PinRole::ChipSelect => ElectricalMode::PushPullOutput,
        _ => ElectricalMode::AlternateFunction,
    }
}

impl PinBinding {
    /// The binding is consistent: the pin exists on the port and its
    /// electrical mode matches its role.
    pub open spec fn wf(self) -> bool {
        &&& self.pin <= 15
        &&& self.mode == mode_for_role(self.role)
    }
}

/// The four role-bound pins of the bus, each owned by exactly one
/// component: the chip-select binding by the framing controller, the
/// other three by the SPI master driver.
#[derive(Clone, Copy, Debug, PartialEq, Eq, Structural)]
pub struct BusPins {
    pub clock: PinBinding,
    pub data_out: PinBinding,
    pub data_in: PinBinding,
    pub chip_select: PinBinding,
}

impl BusPins {
    /// Every binding is consistent, each field carries its own role,
    /// and no physical pin serves two roles.
    pub open spec fn wf(self) -> bool {
        &&& self.clock.wf() && self.clock.role == PinRole::Clock
        &&& self.data_out.wf() && self.data_out.role == PinRole::DataOut
        &&& self.data_in.wf() && self.data_in.role == PinRole::DataIn
        &&& self.chip_select.wf() && self.chip_select.role == PinRole::ChipSelect
        &&& self.clock.pin != self.data_out.pin
        &&& self.clock.pin != self.data_in.pin
        &&& self.clock.pin != self.chip_select.pin
        &&& self.data_out.pin != self.data_in.pin
        &&& self.data_out.pin != self.chip_select.pin
        &&& self.data_in.pin != self.chip_select.pin
    }
}

/// The board's fixed pin map: A5 bus clock, A7 data out, A6 data in,
/// A4 chip select. This map must be kept bit-exact for hardware
/// compatibility with the peer's wiring.
pub open spec fn board_pins() -> BusPins {
    BusPins {
        clock: PinBinding { pin: 5, mode: ElectricalMode::AlternateFunction, role: PinRole::Clock },
        data_out: PinBinding {
            pin: 7,
            mode: ElectricalMode::AlternateFunction,
            role: PinRole::DataOut,
        },
        data_in: PinBinding {
            pin: 6,
            mode: ElectricalMode::AlternateFunction,
            role: PinRole::DataIn,
        },
        chip_select: PinBinding {
            pin: 4,
            mode: ElectricalMode::PushPullOutput,
            role: PinRole::ChipSelect,
        },
    }
}

/// Bind the board's fixed pin map, claiming each of the four pins for
/// its single role.
pub fn bind_board_pins() -> (r: BusPins)
    ensures
        r == board_pins(),
        r.wf(),
        r.clock.pin == 5,
        r.data_out.pin == 7,
        r.data_in.pin == 6,
        r.chip_select.pin == 4,
        r.chip_select.mode == ElectricalMode::PushPullOutput,
        r.clock.mode == ElectricalMode::AlternateFunction,
        r.data_out.mode == ElectricalMode::AlternateFunction,
        r.data_in.mode == ElectricalMode::AlternateFunction,
{
    BusPins {
        clock: PinBinding {
            pin: 5,
            mode: ElectricalMode::AlternateFunction,
            role: PinRole::Clock,
        },
        data_out: PinBinding {
            pin: 7,
            mode: ElectricalMode::AlternateFunction,
            role: PinRole::DataOut,
        },
        data_in: PinBinding {
            pin: 6,
            mode: ElectricalMode::AlternateFunction,
            role: PinRole::DataIn,
        },
        chip_select: PinBinding {
            pin: 4,
            mode: ElectricalMode::PushPullOutput,
            role: PinRole::ChipSelect,
        },
    }
}

} // verus!
