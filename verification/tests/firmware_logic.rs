use spi_hello::bus::{configure_spi, exchange, mode_zero, spi_divisor, Phase, Polarity};
use spi_hello::clock::{plan_clocks, ClockError, MAX_PCLK1, MAX_SYSCLK};
use spi_hello::control::{
    configure_system, hello_payload, idle_delay, run_iteration, BusEvent, IterationEvents,
    IterationOutcome, IDLE_SPINS,
};
use spi_hello::control::run_session;
use spi_hello::framing::{run_end, FramingController, FramingState, LineLevel};
use spi_hello::pins::{bind_board_pins, ElectricalMode, PinRole};

const HSE: u32 = 16_000_000;
const SYSCLK: u32 = 48_000_000;
const PCLK1: u32 = 24_000_000;
const BITRATE: u32 = 8_000_000;

#[test]
fn clock_plan_board_frequencies() {
    let plan = plan_clocks(HSE, SYSCLK, PCLK1).unwrap();
    assert_eq!(plan.hse, HSE);
    assert_eq!(plan.sysclk, SYSCLK);
    assert_eq!(plan.pclk1, PCLK1);
    assert_eq!(plan.pll_div, 1);
    assert_eq!(plan.pll_mul, 3);
    assert_eq!(plan.ppre1, 2);
}

#[test]
fn clock_plan_is_deterministic() {
    let a = plan_clocks(HSE, SYSCLK, PCLK1);
    let b = plan_clocks(HSE, SYSCLK, PCLK1);
    assert_eq!(a, b);
    let c = plan_clocks(HSE, 50_000_000, 25_000_000);
    let d = plan_clocks(HSE, 50_000_000, 25_000_000);
    assert_eq!(c, d);
}

#[test]
fn clock_plan_unreachable_sysclk() {
    // 50 MHz needs a multiplier of 25 on an eighth of 16 MHz: out of range.
    assert_eq!(
        plan_clocks(HSE, 50_000_000, 25_000_000),
        Err(ClockError::UnreachableSysclk)
    );
    // Above the part's limit.
    assert_eq!(
        plan_clocks(HSE, MAX_SYSCLK + 1_000_000, PCLK1),
        Err(ClockError::UnreachableSysclk)
    );
    assert_eq!(plan_clocks(HSE, 0, PCLK1), Err(ClockError::UnreachableSysclk));
}

#[test]
fn clock_plan_unreachable_pclk1() {
    // 48 MHz / 16 MHz = 3 is not an APB1 prescaler value.
    assert_eq!(
        plan_clocks(HSE, SYSCLK, 16_000_000),
        Err(ClockError::UnreachablePclk1)
    );
    // Exact ratio, but over the bus's limit.
    assert_eq!(
        plan_clocks(HSE, SYSCLK, SYSCLK),
        Err(ClockError::UnreachablePclk1)
    );
    assert!(SYSCLK > MAX_PCLK1);
    assert_eq!(plan_clocks(HSE, SYSCLK, 0), Err(ClockError::UnreachablePclk1));
}

#[test]
fn board_pin_map_is_fixed() {
    let pins = bind_board_pins();
    assert_eq!(pins.clock.pin, 5);
    assert_eq!(pins.data_out.pin, 7);
    assert_eq!(pins.data_in.pin, 6);
    assert_eq!(pins.chip_select.pin, 4);
    assert_eq!(pins.chip_select.mode, ElectricalMode::PushPullOutput);
    assert_eq!(pins.clock.mode, ElectricalMode::AlternateFunction);
    assert_eq!(pins.data_out.mode, ElectricalMode::AlternateFunction);
    assert_eq!(pins.data_in.mode, ElectricalMode::AlternateFunction);
    assert_eq!(pins.chip_select.role, PinRole::ChipSelect);
}

#[test]
fn bus_mode_is_mode_zero() {
    let mode = mode_zero();
    assert_eq!(mode.polarity, Polarity::IdleLow);
    assert_eq!(mode.phase, Phase::CaptureFirstEdge);
}

#[test]
fn divisor_for_board_rates() {
    // 24 MHz bus, 8 MHz requested: /2 is still 12 MHz, /4 gives 6 MHz.
    assert_eq!(spi_divisor(PCLK1, BITRATE), 4);
    assert_eq!(spi_divisor(48_000_000, BITRATE), 8);
    assert_eq!(spi_divisor(1_000_000, BITRATE), 2);
    // Slower than the largest divisor can go: capped at 256.
    assert_eq!(spi_divisor(PCLK1, 50_000), 256);
}

#[test]
fn spi_config_keeps_mode_and_clock() {
    let cfg = configure_spi(mode_zero(), PCLK1, BITRATE);
    assert_eq!(cfg.pclk, PCLK1);
    assert_eq!(cfg.bitrate, BITRATE);
    assert_eq!(cfg.divisor, 4);
    assert_eq!(cfg.mode.polarity, Polarity::IdleLow);
}

#[test]
fn payload_is_hello_newline() {
    let p = hello_payload();
    assert_eq!(p, vec![0x48, 0x45, 0x4C, 0x4C, 0x4F, 0x0A]);
    assert_eq!(p, b"HELLO\n".to_vec());
}

#[test]
fn exchange_overwrites_in_place_and_preserves_length() {
    let mut buffer = hello_payload();
    let incoming = vec![9u8, 8, 7, 6, 5, 4];
    let sent = exchange(&mut buffer, &incoming);
    assert_eq!(sent, vec![0x48, 0x45, 0x4C, 0x4C, 0x4F, 0x0A]);
    assert_eq!(buffer, incoming);
    assert_eq!(buffer.len(), 6);
    assert_eq!(sent.len(), 6);
}

#[test]
fn exchange_loopback_returns_payload_unchanged() {
    // Peer looped back: data-out wired to data-in.
    let mut buffer = hello_payload();
    let echoed = hello_payload();
    let sent = exchange(&mut buffer, &echoed);
    assert_eq!(buffer, vec![0x48, 0x45, 0x4C, 0x4C, 0x4F, 0x0A]);
    assert_eq!(sent, buffer);
}

#[test]
fn begin_success_opens_frame() {
    let mut ctrl = FramingController::new();
    assert_eq!(ctrl.state, FramingState::Idle);
    assert!(ctrl.begin(true));
    assert_eq!(ctrl.state, FramingState::Active);
}

#[test]
fn begin_failure_stays_idle() {
    let mut ctrl = FramingController::new();
    assert!(!ctrl.begin(false));
    assert_eq!(ctrl.state, FramingState::Idle);
}

#[test]
fn end_waits_for_deasserted_line() {
    let mut ctrl = FramingController::new();
    ctrl.begin(true);
    let observed = vec![LineLevel::Low, LineLevel::Low, LineLevel::High];
    assert_eq!(run_end(&mut ctrl, &observed), Some(2));
    assert_eq!(ctrl.state, FramingState::Idle);
}

#[test]
fn end_returns_at_first_deasserted_observation() {
    let mut ctrl = FramingController::new();
    ctrl.begin(true);
    let observed = vec![LineLevel::High, LineLevel::Low];
    assert_eq!(run_end(&mut ctrl, &observed), Some(0));
    assert_eq!(ctrl.state, FramingState::Idle);
}

#[test]
fn end_never_confirms_while_line_stays_asserted() {
    let mut ctrl = FramingController::new();
    ctrl.begin(true);
    let observed = vec![LineLevel::Low; 1000];
    assert_eq!(run_end(&mut ctrl, &observed), None);
    assert_eq!(ctrl.state, FramingState::Active);
}

#[test]
fn iteration_completes_with_one_frame() {
    let mut ctrl = FramingController::new();
    let mut buffer = hello_payload();
    let events = IterationEvents {
        assert_ok: true,
        transfer_ok: true,
        incoming: vec![0u8; 6],
        observed: vec![LineLevel::Low, LineLevel::High],
    };
    let report = run_iteration(&mut ctrl, &mut buffer, &events);
    assert_eq!(report.outcome, IterationOutcome::Completed);
    assert_eq!(
        report.trace,
        vec![BusEvent::SelectFall, BusEvent::Clocked, BusEvent::SelectRise]
    );
    assert_eq!(report.sent, b"HELLO\n".to_vec());
    assert_eq!(buffer, vec![0u8; 6]);
    assert_eq!(report.deassert_cmds, 1);
    assert_eq!(report.idle_spins, IDLE_SPINS);
    assert_eq!(ctrl.state, FramingState::Idle);
}

#[test]
fn failed_assertion_skips_whole_iteration() {
    // Simulated assertion failure: no transfer, no bus activity, and
    // the close of the frame is never attempted.
    let mut ctrl = FramingController::new();
    let mut buffer = hello_payload();
    let events = IterationEvents {
        assert_ok: false,
        transfer_ok: true,
        incoming: vec![0u8; 6],
        observed: vec![LineLevel::Low, LineLevel::High],
    };
    let report = run_iteration(&mut ctrl, &mut buffer, &events);
    assert_eq!(report.outcome, IterationOutcome::Skipped);
    assert_eq!(report.trace, vec![]);
    assert!(!report.trace.contains(&BusEvent::Clocked));
    assert!(!report.trace.contains(&BusEvent::SelectRise));
    assert_eq!(report.sent, vec![]);
    assert_eq!(report.deassert_cmds, 0);
    assert_eq!(report.idle_spins, 0);
    assert_eq!(buffer, b"HELLO\n".to_vec());
    assert_eq!(ctrl.state, FramingState::Idle);
}

#[test]
fn failed_transfer_is_fatal_with_frame_open() {
    let mut ctrl = FramingController::new();
    let mut buffer = hello_payload();
    let events = IterationEvents {
        assert_ok: true,
        transfer_ok: false,
        incoming: vec![0u8; 6],
        observed: vec![LineLevel::High],
    };
    let report = run_iteration(&mut ctrl, &mut buffer, &events);
    assert_eq!(report.outcome, IterationOutcome::TransferFailed);
    assert_eq!(report.trace, vec![BusEvent::SelectFall]);
    assert_eq!(buffer, b"HELLO\n".to_vec());
    assert_eq!(ctrl.state, FramingState::Active);
}

#[test]
fn stalled_deassertion_keeps_frame_open() {
    let mut ctrl = FramingController::new();
    let mut buffer = hello_payload();
    let events = IterationEvents {
        assert_ok: true,
        transfer_ok: true,
        incoming: vec![1u8; 6],
        observed: vec![LineLevel::Low; 5],
    };
    let report = run_iteration(&mut ctrl, &mut buffer, &events);
    assert_eq!(report.outcome, IterationOutcome::Stalled);
    assert_eq!(report.trace, vec![BusEvent::SelectFall, BusEvent::Clocked]);
    assert_eq!(report.deassert_cmds, 5);
    assert_eq!(ctrl.state, FramingState::Active);
}

#[test]
fn idle_delay_spins_the_configured_count() {
    assert_eq!(IDLE_SPINS, 100);
    assert_eq!(idle_delay(IDLE_SPINS), 100);
    assert_eq!(idle_delay(0), 0);
}

#[test]
fn system_startup_composes_all_components() {
    let sys = configure_system(HSE, SYSCLK, PCLK1, BITRATE).unwrap();
    assert_eq!(sys.clocks.sysclk, SYSCLK);
    assert_eq!(sys.clocks.pclk1, PCLK1);
    assert_eq!(sys.spi.pclk, PCLK1);
    assert_eq!(sys.spi.divisor, 4);
    assert_eq!(sys.spi.mode.polarity, Polarity::IdleLow);
    assert_eq!(sys.spi.mode.phase, Phase::CaptureFirstEdge);
    assert_eq!(sys.pins, bind_board_pins());
}

#[test]
fn system_startup_fails_on_unreachable_clocks() {
    assert_eq!(
        configure_system(HSE, 50_000_000, 25_000_000, BITRATE),
        Err(ClockError::UnreachableSysclk)
    );
    assert_eq!(
        configure_system(HSE, SYSCLK, 16_000_000, BITRATE),
        Err(ClockError::UnreachablePclk1)
    );
}

fn good_events() -> IterationEvents {
    IterationEvents {
        assert_ok: true,
        transfer_ok: true,
        incoming: vec![0u8; 6],
        observed: vec![LineLevel::Low, LineLevel::High],
    }
}

#[test]
fn session_runs_every_scheduled_iteration() {
    let events = vec![good_events(), good_events(), good_events()];
    let reports = run_session(&events);
    assert_eq!(reports.len(), 3);
    for report in &reports {
        assert_eq!(report.outcome, IterationOutcome::Completed);
        assert_eq!(report.sent, b"HELLO\n".to_vec());
        assert_eq!(
            report.trace,
            vec![BusEvent::SelectFall, BusEvent::Clocked, BusEvent::SelectRise]
        );
    }
}

#[test]
fn session_skips_and_recovers_then_halts_on_bus_error() {
    let mut skipped = good_events();
    skipped.assert_ok = false;
    let mut fatal = good_events();
    fatal.transfer_ok = false;
    let events = vec![good_events(), skipped, good_events(), fatal, good_events()];
    let reports = run_session(&events);
    // The run stops right after the fatal exchange; the last scheduled
    // iteration is never reached.
    assert_eq!(reports.len(), 4);
    assert_eq!(reports[0].outcome, IterationOutcome::Completed);
    assert_eq!(reports[1].outcome, IterationOutcome::Skipped);
    assert_eq!(reports[1].trace, vec![]);
    assert_eq!(reports[2].outcome, IterationOutcome::Completed);
    assert_eq!(reports[3].outcome, IterationOutcome::TransferFailed);
}

#[test]
fn session_stops_when_deassertion_stalls() {
    let mut stalled = good_events();
    stalled.observed = vec![LineLevel::Low; 3];
    let events = vec![good_events(), stalled, good_events()];
    let reports = run_session(&events);
    assert_eq!(reports.len(), 2);
    assert_eq!(reports[1].outcome, IterationOutcome::Stalled);
    assert_eq!(reports[1].sent, b"HELLO\n".to_vec());
}
