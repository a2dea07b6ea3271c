//! SPI master driver model: bus timing mode, bit-rate divisor, and the
//! blocking full-duplex byte exchange.
//!
//! The driver shifts bytes out and in simultaneously: for each position
//! of the buffer, the byte there is sent to the peer and the byte the
//! peer returns replaces it in place. The byte the peer shifts back for
//! each position arrives from the wire; the exchange here takes that
//! incoming sequence as an argument and applies it to the buffer, so
//! the buffer rewrite is verified for every possible peer behaviour.

use vstd::prelude::*;

verus! {

/// Idle level of the bus clock line.
#[derive(Clone, Copy, Debug, PartialEq, Eq, Structural)]
pub enum Polarity {
    IdleLow,
    IdleHigh,
}

/// Which clock transition the data is captured on.
#[derive(Clone, Copy, Debug, PartialEq, Eq, Structural)]
pub enum Phase {
    CaptureFirstEdge,
    CaptureSecondEdge,
}

/// Bus timing mode: clock polarity and capture phase.
#[derive(Clone, Copy, Debug, PartialEq, Eq, Structural)]
pub struct BusMode {
    pub polarity: Polarity,
    pub phase: Phase,
}

/// The fixed timing mode of this bus: mode 0, an idle-low clock with
/// data captured on the first transition.
pub fn mode_zero() -> (m: BusMode)
    ensures
        m.polarity == Polarity::IdleLow,
        m.phase == Phase::CaptureFirstEdge,
{
    BusMode { polarity: Polarity::IdleLow, phase: Phase::CaptureFirstEdge }
}

/// The bit-rate divisor for a peripheral clock `pclk` and a target bit
/// rate: the smallest of the hardware's power-of-two divisors that does
/// not drive the bus faster than requested, capped at the largest
/// divisor the hardware offers.
pub open spec fn spi_divisor_spec(pclk: int, bitrate: int) -> int {
    if pclk / 2 <= bitrate {
        2
    } else if pclk / 4 <= bitrate {
        4
    } else if pclk / 8 <= bitrate {
        8
    } else if pclk / 16 <= bitrate {
        16
    } else if pclk / 32 <= bitrate {
        32
    } else if pclk / 64 <= bitrate {
        64
    } else if pclk / 128 <= bitrate {
        128
    } else {
        256
    }
}

/// Compute the bit-rate divisor for the given peripheral clock and
/// target bit rate.
pub fn spi_divisor(pclk: u32, bitrate: u32) -> (d: u32)
    requires
        bitrate >= 1,
    ensures
        d == spi_divisor_spec(pclk as int, bitrate as int),
        d == 2 || d == 4 || d == 8 || d == 16 || d == 32 || d == 64 || d == 128 || d == 256,
        d != 256 ==> pclk as int / d as int <= bitrate as int,
{
    if pclk / 2 <= bitrate {
        2
    } else if pclk / 4 <= bitrate {
        4
    } else if pclk / 8 <= bitrate {
        8
    } else if pclk / 16 <= bitrate {
        16
    } else if pclk / 32 <= bitrate {
        32
    } else if pclk / 64 <= bitrate {
        64
    } else if pclk / 128 <= bitrate {
        128
    } else {
        256
    }
}

/// One-time configuration of the SPI master: timing mode, the derived
/// peripheral clock it runs from, the requested bit rate and the
/// divisor chosen for it. Immutable once built.
#[derive(Clone, Copy, Debug, PartialEq, Eq, Structural)]
pub struct SpiConfig {
    pub mode: BusMode,
    /// Peripheral bus clock feeding the SPI block, Hz.
    pub pclk: u32,
    /// Requested bit rate, Hz.
    pub bitrate: u32,
    /// Power-of-two clock divisor chosen for the bit rate.
    pub divisor: u32,
}

impl SpiConfig {
    /// The divisor really is the one derived from the clock and the
    /// requested bit rate.
    pub open spec fn wf(self) -> bool {
        &&& self.bitrate >= 1
        &&& self.divisor == spi_divisor_spec(self.pclk as int, self.bitrate as int)
    }
}

/// Configure the SPI master once: fix the timing mode and derive the
/// bit-rate divisor from the peripheral clock.
pub fn configure_spi(mode: BusMode, pclk: u32, bitrate: u32) -> (c: SpiConfig)
    requires
        bitrate >= 1,
    ensures
        c.mode == mode,
        c.pclk == pclk,
        c.bitrate == bitrate,
        c.divisor == spi_divisor_spec(pclk as int, bitrate as int),
        c.wf(),
{
    let divisor = spi_divisor(pclk, bitrate);
    SpiConfig { mode, pclk, bitrate, divisor }
}

/// Blocking full-duplex exchange: every byte of `buffer` is shifted out
/// in order, and the byte the peer shifts back for the same position
/// (`incoming`) overwrites it in place. The buffer is never resized and
/// byte order is preserved: position `i` sent corresponds to position
/// `i` received. Returns the sequence of bytes that went out on the
/// wire.
pub fn exchange(buffer: &mut Vec<u8>, incoming: &Vec<u8>) -> (sent: Vec<u8>)
    requires
        old(buffer).len() == incoming.len(),
    ensures
        sent@ == old(buffer)@,
        final(buffer)@ == incoming@,
        final(buffer).len() == old(buffer).len(),
{
    let ghost orig = buffer@;
    let mut sent: Vec<u8> = Vec::new();
    let n = buffer.len();
    let mut i: usize = 0;
    while i < n
        invariant
            i <= n,
            n == orig.len(),
            buffer.len() == n,
            incoming.len() == n,
            sent@ == orig.subrange(0, i as int),
            buffer@ == incoming@.subrange(0, i as int) + orig.subrange(i as int, n as int),
        decreases n - i,
    {
        let out_byte = buffer[i];
        proof {
            assert(buffer@[i as int] == orig[i as int]);
        }
        sent.push(out_byte);
        buffer[i] = incoming[i];
        i += 1;
        proof {
            assert(sent@ =~= orig.subrange(0, i as int));
            assert(buffer@ =~= incoming@.subrange(0, i as int) + orig.subrange(
                i as int,
                n as int,
            ));
        }
    }
    proof {
        assert(sent@ =~= orig);
        assert(buffer@ =~= incoming@);
    }
    sent
}

} // verus!
