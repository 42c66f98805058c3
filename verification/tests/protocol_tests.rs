//! The protocol machines against simulated bus behavior.

use bosch_bme680::bitfields::RawData;
use bosch_bme680::config::SensorMode;
use bosch_bme680::protocol::{
    Action, ConfigMachine, ConfigStep, MeasurementPoller, ModeMachine, ModeStep, PollOutcome,
    Reply, SetupMachine, SetupStep,
};
use bosch_bme680::{Configuration, GasConfig, IIRFilter, Oversampling};

fn fixture_block() -> Vec<u8> {
    let mut b = vec![0xAAu8; 42];
    b[0] = 0xE3;
    b[1] = 0x66;
    b[2] = 3;
    b[4] = 0x0B;
    b[5] = 0x8E;
    b[6] = 0x3B;
    b[7] = 0xD7;
    b[8] = 0x58;
    b[10] = 0xE0;
    b[11] = 0x1C;
    b[12] = 0x8C;
    b[13] = 0xFF;
    b[14] = 45;
    b[15] = 30;
    b[18] = 0xEE;
    b[19] = 0xF3;
    b[20] = 0x0A;
    b[21] = 0xF7;
    b[22] = 30;
    b[23] = 0x3F;
    b[24] = 0xD2;
    b[25] = 0x2C;
    b[26] = 0;
    b[27] = 45;
    b[28] = 20;
    b[29] = 120;
    b[30] = 156;
    b[31] = 0x0E;
    b[32] = 0x66;
    b[33] = 0xAF;
    b[34] = 0xE8;
    b[35] = 0xE2;
    b[36] = 18;
    b[37] = 46;
    b[39] = 0x12;
    b[41] = 0x04;
    b
}

#[test]
fn construction_runs_reset_settle_identity_then_calibration() {
    let block = fixture_block();
    let (mut m, first) = SetupMachine::new();
    assert_eq!(first, Action::Write { reg: 0xE0, val: 0xB6 });
    let s = m.step(Reply::Ack);
    assert!(matches!(s, SetupStep::Continue(Action::DelayUs { us: 10_000 })));
    let s = m.step(Reply::Elapsed);
    assert!(matches!(s, SetupStep::Continue(Action::Read { reg: 0xD0, len: 1 })));
    let s = m.step(Reply::Bytes(vec![0x61]));
    assert!(matches!(s, SetupStep::Continue(Action::Read { reg: 0x8A, len: 23 })));
    let s = m.step(Reply::Bytes(block[0..23].to_vec()));
    assert!(matches!(s, SetupStep::Continue(Action::Read { reg: 0xE1, len: 14 })));
    let s = m.step(Reply::Bytes(block[23..37].to_vec()));
    assert!(matches!(s, SetupStep::Continue(Action::Read { reg: 0x00, len: 5 })));
    let s = m.step(Reply::Bytes(block[37..42].to_vec()));
    match s {
        SetupStep::Ready(calib) => {
            assert_eq!(calib.par_t1, 26126);
            assert_eq!(calib.par_h2, 1021);
            assert_eq!(calib.range_sw_err, 0);
        }
        _ => panic!("construction did not finish with a calibration record"),
    }
}

#[test]
fn wrong_chip_identity_fails_before_any_calibration_read() {
    // Every action up to the identity reply is accounted for: the reset
    // write, the settle delay, and the identity read. A wrong identity
    // byte then stops the machine, so no calibration register was ever
    // read.
    let (mut m, first) = SetupMachine::new();
    assert_eq!(first, Action::Write { reg: 0xE0, val: 0xB6 });
    let s = m.step(Reply::Ack);
    assert!(matches!(s, SetupStep::Continue(Action::DelayUs { us: 10_000 })));
    let s = m.step(Reply::Elapsed);
    assert!(matches!(s, SetupStep::Continue(Action::Read { reg: 0xD0, len: 1 })));
    let s = m.step(Reply::Bytes(vec![0x55]));
    assert!(matches!(s, SetupStep::BadChipId(0x55)));
}

#[test]
fn forced_while_forced_issues_exactly_one_sleep_write() {
    // The control register reports forced (mode bits 0b01). The machine
    // writes it back with the mode bits cleared — once — waits, re-reads,
    // and only after observing sleep arms the forced cycle.
    let (mut m, first) = ModeMachine::new(SensorMode::Forced);
    assert_eq!(first, Action::Read { reg: 0x74, len: 1 });
    let s = m.step(&Reply::Bytes(vec![0x55]));
    assert_eq!(s, ModeStep::Continue(Action::Write { reg: 0x74, val: 0x54 }));
    let s = m.step(&Reply::Ack);
    assert_eq!(s, ModeStep::Continue(Action::DelayUs { us: 10_000 }));
    let s = m.step(&Reply::Elapsed);
    assert_eq!(s, ModeStep::Continue(Action::Read { reg: 0x74, len: 1 }));
    let s = m.step(&Reply::Bytes(vec![0x54]));
    assert_eq!(s, ModeStep::Continue(Action::Write { reg: 0x74, val: 0x55 }));
    let s = m.step(&Reply::Ack);
    assert_eq!(s, ModeStep::Finished);
}

#[test]
fn forced_while_sleeping_issues_no_sleep_write() {
    let (mut m, first) = ModeMachine::new(SensorMode::Forced);
    assert_eq!(first, Action::Read { reg: 0x74, len: 1 });
    let s = m.step(&Reply::Bytes(vec![0x54]));
    assert_eq!(s, ModeStep::Continue(Action::Write { reg: 0x74, val: 0x55 }));
    let s = m.step(&Reply::Ack);
    assert_eq!(s, ModeStep::Finished);
}

#[test]
fn sleep_while_sleeping_issues_nothing() {
    let (mut m, _) = ModeMachine::new(SensorMode::Sleep);
    let s = m.step(&Reply::Bytes(vec![0x54]));
    assert_eq!(s, ModeStep::Finished);
}

#[test]
fn drain_loop_keeps_writing_sleep_until_sleep_is_observed() {
    let (mut m, _) = ModeMachine::new(SensorMode::Forced);
    for _ in 0..3 {
        let s = m.step(&Reply::Bytes(vec![0x55]));
        assert_eq!(s, ModeStep::Continue(Action::Write { reg: 0x74, val: 0x54 }));
        let s = m.step(&Reply::Ack);
        assert_eq!(s, ModeStep::Continue(Action::DelayUs { us: 10_000 }));
        let s = m.step(&Reply::Elapsed);
        assert_eq!(s, ModeStep::Continue(Action::Read { reg: 0x74, len: 1 }));
    }
    let s = m.step(&Reply::Bytes(vec![0x54]));
    assert_eq!(s, ModeStep::Continue(Action::Write { reg: 0x74, val: 0x55 }));
}

fn busy_block() -> RawData {
    // The measuring bit is set, fresh data is not flagged.
    let mut b = [0u8; 15];
    b[0] = 0x20;
    RawData(b)
}

fn ready_block() -> RawData {
    // Not measuring, fresh data flagged.
    let mut b = [0u8; 15];
    b[0] = 0x80;
    RawData(b)
}

#[test]
fn poll_succeeds_on_the_fifth_attempt() {
    let mut p = MeasurementPoller::new();
    for _ in 0..4 {
        assert_eq!(p.offer(&busy_block()), PollOutcome::RetryAfterDelay);
    }
    assert_eq!(p.offer(&ready_block()), PollOutcome::Ready);
}

#[test]
fn poll_times_out_after_exactly_five_attempts() {
    let mut p = MeasurementPoller::new();
    for _ in 0..4 {
        assert_eq!(p.offer(&busy_block()), PollOutcome::RetryAfterDelay);
    }
    assert_eq!(p.offer(&busy_block()), PollOutcome::TimedOut);
    assert_eq!(p.attempts_left, 0);
}

#[test]
fn stale_data_is_not_accepted() {
    // Not measuring, but no fresh data either: the poll must retry.
    let mut p = MeasurementPoller::new();
    assert_eq!(p.offer(&RawData([0u8; 15])), PollOutcome::RetryAfterDelay);
}

#[test]
fn configuration_writes_every_register_in_map_order() {
    let calib = {
        let mut arr = [0u8; 42];
        for (i, v) in fixture_block().into_iter().enumerate() {
            arr[i] = v;
        }
        bosch_bme680::extract_calibration_data(arr)
    };
    let conf = Configuration {
        temperature_oversampling: Some(Oversampling::By2),
        pressure_oversampling: Some(Oversampling::By16),
        humidity_oversampling: Some(Oversampling::By1),
        filter: Some(IIRFilter::Coeff3),
        gas_config: Some(GasConfig { heater_target_temperature: 300, heater_duration: 150 }),
    };
    let (mut m, first) = ConfigMachine::new(&conf, &calib, 25);
    assert_eq!(first, Action::Read { reg: 0x71, len: 5 });
    let s = m.step(Reply::Bytes(vec![0, 0, 0, 0, 0]));
    assert!(matches!(s, ConfigStep::Continue(Action::Write { reg: 0x71, val: 0x10 })));
    let s = m.step(Reply::Ack);
    assert!(matches!(s, ConfigStep::Continue(Action::Write { reg: 0x72, val: 0x01 })));
    let s = m.step(Reply::Ack);
    assert!(matches!(s, ConfigStep::Continue(Action::Write { reg: 0x73, val: 0x00 })));
    let s = m.step(Reply::Ack);
    assert!(matches!(s, ConfigStep::Continue(Action::Write { reg: 0x74, val: 0x54 })));
    let s = m.step(Reply::Ack);
    assert!(matches!(s, ConfigStep::Continue(Action::Write { reg: 0x75, val: 0x08 })));
    // The present heater profile appends the two heater registers,
    // wait-time first.
    let s = m.step(Reply::Ack);
    assert!(matches!(s, ConfigStep::Continue(Action::Write { reg: 0x64, val: 101 })));
    let s = m.step(Reply::Ack);
    assert!(matches!(s, ConfigStep::Continue(Action::Write { reg: 0x5A, val: 112 })));
    let s = m.step(Reply::Ack);
    match s {
        ConfigStep::Finished(image) => {
            assert_eq!(image.0, [0x10, 0x01, 0x00, 0x54, 0x08]);
        }
        _ => panic!("configuration did not finish with the merged image"),
    }
}

#[test]
fn configuration_without_gas_profile_skips_heater_registers() {
    let calib = {
        let mut arr = [0u8; 42];
        for (i, v) in fixture_block().into_iter().enumerate() {
            arr[i] = v;
        }
        bosch_bme680::extract_calibration_data(arr)
    };
    let conf = Configuration {
        temperature_oversampling: Some(Oversampling::By1),
        pressure_oversampling: None,
        humidity_oversampling: None,
        filter: None,
        gas_config: None,
    };
    let (mut m, _) = ConfigMachine::new(&conf, &calib, 25);
    // A partial configuration only touches the bytes whose values are
    // present; the pressure bits and filter byte come back unchanged.
    let s = m.step(Reply::Bytes(vec![0x10, 0x05, 0x00, 0x7F, 0x1C]));
    assert!(matches!(s, ConfigStep::Continue(Action::Write { reg: 0x71, val: 0x10 })));
    let s = m.step(Reply::Ack);
    assert!(matches!(s, ConfigStep::Continue(Action::Write { reg: 0x72, val: 0x05 })));
    let s = m.step(Reply::Ack);
    assert!(matches!(s, ConfigStep::Continue(Action::Write { reg: 0x73, val: 0x00 })));
    let s = m.step(Reply::Ack);
    // 0x7F keeps its pressure and mode bits, the top three become 0b001.
    assert!(matches!(s, ConfigStep::Continue(Action::Write { reg: 0x74, val: 0x3F })));
    let s = m.step(Reply::Ack);
    assert!(matches!(s, ConfigStep::Continue(Action::Write { reg: 0x75, val: 0x1C })));
    let s = m.step(Reply::Ack);
    assert!(matches!(s, ConfigStep::Finished(_)));
}
