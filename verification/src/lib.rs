//! Verified control core of a small SPI transmitter firmware.
//!
//! The library covers the decision logic of the firmware: deriving the
//! system and peripheral-bus clocks from the external oscillator, binding
//! the four bus pins to their roles, the full-duplex byte-exchange
//! semantics of the SPI master, and the chip-select framing discipline
//! around each transfer. The register writes themselves are performed by
//! the surrounding firmware shell, which feeds the hardware's responses
//! back into these functions.

pub mod bus;
pub mod clock;
pub mod control;
pub mod framing;
pub mod pins;
