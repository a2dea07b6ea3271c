//! Main control logic: one-time startup composition and the repeating
//! transmit iteration.
//!
//! After startup the firmware loops forever: open a frame, exchange
//! the fixed payload, idle briefly, close the frame. Each pass of that
//! loop is decided here from the results the hardware reported — the
//! drive of the chip-select line, the outcome of the bus exchange, the
//! levels read back while closing the frame — so the control flow,
//! including its one deliberate asymmetry (a failed assertion skips
//! the whole iteration), is verified for every possible combination of
//! hardware responses.

use vstd::prelude::*;

use crate::bus::{configure_spi, exchange, mode_zero, Phase, Polarity, SpiConfig};
use crate::clock::{pclk1_achievable, plan_clocks, sysclk_achievable, ClockError, ClockPlan};
use crate::framing::{all_low, run_end, FramingController, FramingState, LineLevel};
use crate::pins::{bind_board_pins, board_pins, BusPins};

verus! {

/// The fixed six-byte wire payload: the ASCII bytes of `HELLO` and a
/// line feed.
pub open spec fn hello_bytes() -> Seq<u8> {
    seq![0x48u8, 0x45u8, 0x4Cu8, 0x4Cu8, 0x4Fu8, 0x0Au8]
}

/// Idle busy-wait iterations between the exchange and the close of the
/// frame: a crude, uncalibrated frequency cap, not a timed delay.
pub const IDLE_SPINS: u32 = 100;

/// Build the transfer buffer holding the fixed payload.
pub fn hello_payload() -> (p: Vec<u8>)
    ensures
        p@ == hello_bytes(),
        p.len() == 6,
{
    let mut p: Vec<u8> = Vec::new();
    p.push(0x48);
    p.push(0x45);
    p.push(0x4C);
    p.push(0x4C);
    p.push(0x4F);
    p.push(0x0A);
    proof {
        assert(p@ =~= hello_bytes());
    }
    p
}

/// Busy-wait for the given number of idle iterations; returns how many
/// iterations were spun.
pub fn idle_delay(spins: u32) -> (n: u32)
    ensures
        n == spins,
{
    let mut i: u32 = 0;
    while i < spins
        invariant
            i <= spins,
        decreases spins - i,
    {
        i += 1;
    }
    i
}

/// Everything the startup phase produces, built exactly once and
/// immutable afterwards.
#[derive(Clone, Copy, Debug, PartialEq, Eq, Structural)]
pub struct SystemConfig {
    pub clocks: ClockPlan,
    pub pins: BusPins,
    pub spi: SpiConfig,
}

impl SystemConfig {
    /// Each part is well formed and the SPI master really runs from
    /// the derived peripheral bus clock.
    pub open spec fn wf(self) -> bool {
        &&& self.clocks.wf()
        &&& self.pins.wf()
        &&& self.spi.wf()
        &&& self.spi.pclk == self.clocks.pclk1
    }
}

/// One-time startup: lock the clock plan, bind the board's pins, and
/// configure the SPI master in mode 0 with its bit-rate divisor
/// derived from the peripheral bus clock. Fails, before any transfer
/// can happen, exactly when the requested frequencies are unreachable.
pub fn configure_system(hse: u32, target_sysclk: u32, target_pclk1: u32, bitrate: u32) -> (r:
    Result<SystemConfig, ClockError>)
    requires
        bitrate >= 1,
    ensures
        match r {
            Ok(sys) => {
                &&& sys.wf()
                &&& sys.clocks.hse == hse
                &&& sys.clocks.sysclk == target_sysclk
                &&& sys.clocks.pclk1 == target_pclk1
                &&& sys.pins == board_pins()
                &&& sys.spi.mode.polarity == Polarity::IdleLow
                &&& sys.spi.mode.phase == Phase::CaptureFirstEdge
                &&& sys.spi.bitrate == bitrate
                &&& sys.spi.pclk == target_pclk1
            },
            Err(ClockError::UnreachableSysclk) => !sysclk_achievable(hse, target_sysclk),
            Err(ClockError::UnreachablePclk1) => sysclk_achievable(hse, target_sysclk)
                && !pclk1_achievable(target_sysclk, target_pclk1),
        },
        r is Ok <==> sysclk_achievable(hse, target_sysclk) && pclk1_achievable(
            target_sysclk,
            target_pclk1,
        ),
{
    let clocks = match plan_clocks(hse, target_sysclk, target_pclk1) {
        Ok(plan) => plan,
        Err(e) => {
            return Err(e);
        },
    };
    let pins = bind_board_pins();
    let spi = configure_spi(mode_zero(), clocks.pclk1, bitrate);
    Ok(SystemConfig { clocks, pins, spi })
}

/// Observable bus activity during one iteration, in order.
#[derive(Clone, Copy, Debug, PartialEq, Eq, Structural)]
pub enum BusEvent {
    /// Chip select driven low: a frame opened.
    SelectFall,
    /// One full-duplex buffer exchange clocked on the bus.
    Clocked,
    /// Chip select confirmed high again: the frame closed.
    SelectRise,
}

/// What the hardware reported back during one iteration.
pub struct IterationEvents {
    /// Result of driving the chip-select line low.
    pub assert_ok: bool,
    /// Whether the bus-level exchange completed without error.
    pub transfer_ok: bool,
    /// The bytes the peer shifted back, one per payload byte.
    pub incoming: Vec<u8>,
    /// Levels read back from the chip-select line while closing the
    /// frame, one per deassert command issued.
    pub observed: Vec<LineLevel>,
}

/// How one iteration ended.
#[derive(Clone, Copy, Debug, PartialEq, Eq, Structural)]
pub enum IterationOutcome {
    /// Frame opened, payload exchanged, frame confirmed closed.
    Completed,
    /// Chip-select assertion failed: the iteration degraded to a
    /// no-op cycle — no transfer, no retry.
    Skipped,
    /// The exchange itself failed: fatal, the program halts.
    TransferFailed,
    /// The line was never observed deasserted while closing the
    /// frame: with real hardware the program spins here forever.
    Stalled,
}

/// The outcome one iteration must end with, as a pure function of what
/// the hardware reported.
pub open spec fn expected_outcome(assert_ok: bool, transfer_ok: bool, observed: Seq<
    LineLevel,
>) -> IterationOutcome {
    if !assert_ok {
        IterationOutcome::Skipped
    } else if !transfer_ok {
        IterationOutcome::TransferFailed
    } else if all_low(observed) {
        IterationOutcome::Stalled
    } else {
        IterationOutcome::Completed
    }
}

/// Report of one iteration: its outcome, the bus activity it caused,
/// what went out on the wire, and how much closing the frame took.
pub struct IterationReport {
    pub outcome: IterationOutcome,
    /// Bus activity of the iteration, in order.
    pub trace: Vec<BusEvent>,
    /// The bytes shifted out, empty when no transfer happened.
    pub sent: Vec<u8>,
    /// Deassert commands issued before the frame was confirmed closed.
    pub deassert_cmds: usize,
    /// Idle iterations spun after the exchange.
    pub idle_spins: u32,
}

/// The trace shapes one iteration can produce: nothing (skipped), an
/// open frame cut short by a fatal exchange, an open frame stalled
/// while closing, or a complete frame.
pub open spec fn iteration_trace(tr: Seq<BusEvent>) -> bool {
    ||| tr =~= Seq::<BusEvent>::empty()
    ||| tr =~= seq![BusEvent::SelectFall]
    ||| tr =~= seq![BusEvent::SelectFall, BusEvent::Clocked]
    ||| tr =~= seq![BusEvent::SelectFall, BusEvent::Clocked, BusEvent::SelectRise]
}

/// How many times `e` occurs in the trace.
pub open spec fn count_events(tr: Seq<BusEvent>, e: BusEvent) -> int
    decreases tr.len(),
{
    if tr.len() == 0 {
        0
    } else {
        count_events(tr.drop_last(), e) + if tr.last() == e {
            1int
        } else {
            0int
        }
    }
}

/// Run one pass of the main loop against what the hardware reported:
/// open the frame, and only if that succeeded exchange the payload,
/// idle, and close the frame. A failed assertion skips everything —
/// in particular no exchange is clocked and no deassert is issued for
/// that iteration — and a failed exchange is fatal with the frame
/// still open.
pub fn run_iteration(
    ctrl: &mut FramingController,
    buffer: &mut Vec<u8>,
    events: &IterationEvents,
) -> (r: IterationReport)
    requires
        old(ctrl).state == FramingState::Idle,
        events.incoming.len() == old(buffer).len(),
    ensures
        r.outcome == expected_outcome(events.assert_ok, events.transfer_ok, events.observed@),
        iteration_trace(r.trace@),
        match r.outcome {
            IterationOutcome::Skipped => {
                &&& r.trace@ =~= Seq::<BusEvent>::empty()
                &&& final(buffer)@ == old(buffer)@
                &&& r.sent@.len() == 0
                &&& r.deassert_cmds == 0
                &&& r.idle_spins == 0
                &&& final(ctrl).state == FramingState::Idle
            },
            IterationOutcome::TransferFailed => {
                &&& r.trace@ =~= seq![BusEvent::SelectFall]
                &&& final(buffer)@ == old(buffer)@
                &&& r.sent@.len() == 0
                &&& r.deassert_cmds == 0
                &&& r.idle_spins == 0
                &&& final(ctrl).state == FramingState::Active
            },
            IterationOutcome::Stalled => {
                &&& r.trace@ =~= seq![BusEvent::SelectFall, BusEvent::Clocked]
                &&& r.sent@ == old(buffer)@
                &&& final(buffer)@ == events.incoming@
                &&& r.deassert_cmds == events.observed.len()
                &&& r.idle_spins == IDLE_SPINS
                &&& final(ctrl).state == FramingState::Active
            },
            IterationOutcome::Completed => {
                &&& r.trace@ =~= seq![
                    BusEvent::SelectFall,
                    BusEvent::Clocked,
                    BusEvent::SelectRise,
                ]
                &&& r.sent@ == old(buffer)@
                &&& final(buffer)@ == events.incoming@
                &&& final(buffer).len() == old(buffer).len()
                &&& r.deassert_cmds < events.observed.len()
                &&& events.observed@[r.deassert_cmds as int] == LineLevel::High
                &&& forall|j: int|
                    0 <= j < r.deassert_cmds ==> events.observed@[j] == LineLevel::Low
                &&& r.idle_spins == IDLE_SPINS
                &&& final(ctrl).state == FramingState::Idle
            },
        },
{
    let proceed = ctrl.begin(events.assert_ok);
    if !proceed {
        return IterationReport {
            outcome: IterationOutcome::Skipped,
            trace: Vec::new(),
            sent: Vec::new(),
            deassert_cmds: 0,
            idle_spins: 0,
        };
    }
    let mut trace: Vec<BusEvent> = Vec::new();
    trace.push(BusEvent::SelectFall);
    if !events.transfer_ok {
        proof {
            assert(trace@ =~= seq![BusEvent::SelectFall]);
        }
        return IterationReport {
            outcome: IterationOutcome::TransferFailed,
            trace,
            sent: Vec::new(),
            deassert_cmds: 0,
            idle_spins: 0,
        };
    }
    let sent = exchange(buffer, &events.incoming);
    trace.push(BusEvent::Clocked);
    let idle_spins = idle_delay(IDLE_SPINS);
    match run_end(ctrl, &events.observed) {
        Some(cmds) => {
            trace.push(BusEvent::SelectRise);
            proof {
                assert(trace@ =~= seq![
                    BusEvent::SelectFall,
                    BusEvent::Clocked,
                    BusEvent::SelectRise,
                ]);
            }
            IterationReport {
                outcome: IterationOutcome::Completed,
                trace,
                sent,
                deassert_cmds: cmds,
                idle_spins,
            }
        },
        None => {
            proof {
                assert(trace@ =~= seq![BusEvent::SelectFall, BusEvent::Clocked]);
            }
            IterationReport {
                outcome: IterationOutcome::Stalled,
                trace,
                sent,
                deassert_cmds: events.observed.len(),
                idle_spins,
            }
        },
    }
}

/// An iteration outcome that ends the program: a fatal exchange (the
/// program halts) or a stall while closing the frame (the program
/// spins forever).
pub open spec fn terminal_outcome(o: IterationOutcome) -> bool {
    o == IterationOutcome::TransferFailed || o == IterationOutcome::Stalled
}

/// Run the main loop against a finite schedule of hardware reports,
/// one entry per iteration. The real loop repeats indefinitely; this
/// runs its decision core as far as the program would get: every
/// iteration starts with a fresh copy of the fixed payload, and the
/// run stops early exactly when an iteration ends the program. Frames
/// are strictly sequential: every iteration after the first runs only
/// because the previous frame was confirmed closed (or was never
/// opened).
pub fn run_session(events: &Vec<IterationEvents>) -> (r: Vec<IterationReport>)
    requires
        forall|i: int| 0 <= i < events.len() ==> (#[trigger] events@[i].incoming@.len()) == 6,
    ensures
        r.len() <= events.len(),
        forall|i: int|
            0 <= i < r.len() ==> (#[trigger] r@[i].outcome) == expected_outcome(
                events@[i].assert_ok,
                events@[i].transfer_ok,
                events@[i].observed@,
            ),
        forall|i: int| 0 <= i < r.len() ==> iteration_trace(#[trigger] r@[i].trace@),
        forall|i: int|
            0 <= i < r.len() && (#[trigger] r@[i].outcome) == IterationOutcome::Completed
                ==> r@[i].sent@ == hello_bytes() && r@[i].trace@ =~= seq![
                BusEvent::SelectFall,
                BusEvent::Clocked,
                BusEvent::SelectRise,
            ],
        forall|i: int|
            0 <= i < r.len() && (#[trigger] r@[i].outcome) == IterationOutcome::Stalled
                ==> r@[i].sent@ == hello_bytes(),
        forall|i: int|
            0 <= i < r.len() && (#[trigger] r@[i].outcome) == IterationOutcome::Skipped
                ==> r@[i].trace@ =~= Seq::<BusEvent>::empty(),
        forall|i: int| 0 <= i < r.len() - 1 ==> !terminal_outcome(#[trigger] r@[i].outcome),
        r.len() < events.len() ==> r.len() >= 1 && terminal_outcome(r@[r.len() - 1].outcome),
{
    let mut ctrl = FramingController::new();
    let mut reports: Vec<IterationReport> = Vec::new();
    let n = events.len();
    let mut i: usize = 0;
    let mut done = false;
    while i < n && !done
        invariant
            i <= n,
            n == events.len(),
            reports.len() == i,
            forall|k: int| 0 <= k < events.len() ==> (#[trigger] events@[k].incoming@.len()) == 6,
            !done ==> ctrl.state == FramingState::Idle,
            !done ==> forall|j: int| 0 <= j < i ==> !terminal_outcome(
                (#[trigger] reports@[j].outcome),
            ),
            done ==> i >= 1 && terminal_outcome(reports@[i - 1].outcome) && forall|j: int|
                0 <= j < i - 1 ==> !terminal_outcome((#[trigger] reports@[j].outcome)),
            forall|j: int|
                0 <= j < i ==> (#[trigger] reports@[j].outcome) == expected_outcome(
                    events@[j].assert_ok,
                    events@[j].transfer_ok,
                    events@[j].observed@,
                ),
            forall|j: int| 0 <= j < i ==> iteration_trace(#[trigger] reports@[j].trace@),
            forall|j: int|
                0 <= j < i && (#[trigger] reports@[j].outcome) == IterationOutcome::Completed
                    ==> reports@[j].sent@ == hello_bytes() && reports@[j].trace@ =~= seq![
                    BusEvent::SelectFall,
                    BusEvent::Clocked,
                    BusEvent::SelectRise,
                ],
            forall|j: int|
                0 <= j < i && (#[trigger] reports@[j].outcome) == IterationOutcome::Stalled
                    ==> reports@[j].sent@ == hello_bytes(),
            forall|j: int|
                0 <= j < i && (#[trigger] reports@[j].outcome) == IterationOutcome::Skipped
                    ==> reports@[j].trace@ =~= Seq::<BusEvent>::empty(),
        decreases n - i,
    {
        let mut buffer = hello_payload();
        let report = run_iteration(&mut ctrl, &mut buffer, &events[i]);
        let terminal = match report.outcome {
            IterationOutcome::TransferFailed => true,
            IterationOutcome::Stalled => true,
            _ => false,
        };
        reports.push(report);
        i += 1;
        if terminal {
            done = true;
        }
    }
    reports
}

/// Framing law: in any trace an iteration can produce, the chip-select
/// line rises at most once; it rises exactly once when and only when
/// the frame completed, and then exactly one exchange was clocked,
/// strictly between the fall and the rise. The line never falls and
/// rises without a transfer in between.
pub proof fn lemma_frame_discipline(tr: Seq<BusEvent>)
    requires
        iteration_trace(tr),
    ensures
        count_events(tr, BusEvent::SelectRise) <= 1,
        count_events(tr, BusEvent::Clocked) <= 1,
        count_events(tr, BusEvent::SelectRise) == 1 ==> {
            &&& count_events(tr, BusEvent::Clocked) == 1
            &&& count_events(tr, BusEvent::SelectFall) == 1
            &&& tr =~= seq![BusEvent::SelectFall, BusEvent::Clocked, BusEvent::SelectRise]
        },
{
    reveal_with_fuel(count_events, 5);
    if tr =~= Seq::<BusEvent>::empty() {
    } else if tr =~= seq![BusEvent::SelectFall] {
        assert(tr.drop_last() =~= Seq::<BusEvent>::empty());
    } else if tr =~= seq![BusEvent::SelectFall, BusEvent::Clocked] {
        assert(tr.drop_last() =~= seq![BusEvent::SelectFall]);
        assert(tr.drop_last().drop_last() =~= Seq::<BusEvent>::empty());
    } else {
        assert(tr =~= seq![BusEvent::SelectFall, BusEvent::Clocked, BusEvent::SelectRise]);
        assert(tr.drop_last() =~= seq![BusEvent::SelectFall, BusEvent::Clocked]);
        assert(tr.drop_last().drop_last() =~= seq![BusEvent::SelectFall]);
        assert(tr.drop_last().drop_last().drop_last() =~= Seq::<BusEvent>::empty());
    }
}

} // verus!
