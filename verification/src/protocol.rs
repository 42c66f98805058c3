//! The bus protocols, as step machines.
//!
//! The device is reached through addressed write and write-then-read
//! primitives and a timer, all supplied by the embedding. Each protocol —
//! construction, the sleep/forced mode transition, configuration, and the
//! measurement poll — is a machine here: it hands the embedding one
//! [`Action`] at a time and is stepped with the [`Reply`] the bus gave
//! back. Every sequencing decision is made, and checked, in these
//! machines; the embedding only performs the transfers. A transport
//! failure aborts the protocol: the embedding stops stepping the machine
//! and wraps the failure with
//! [`crate::error::BmeError::from_transport`].

use vstd::prelude::*;

verus! {

use crate::bitfields::{RawConfig, spec_cfg_filter_byte, spec_cfg_gas_byte, spec_cfg_hum_byte,
    spec_cfg_meas_byte, spec_mode_of, spec_raw_measuring, spec_raw_new_data, spec_with_mode};
use crate::config::{Configuration, SensorMode, spec_gas_wait, spec_res_heat};
use crate::constants::{ADDR_CHIP_ID, ADDR_CONFIG, ADDR_CONTROL_MODE, ADDR_GAS_WAIT_0,
    ADDR_REG_COEFF1, ADDR_REG_COEFF2, ADDR_REG_COEFF3, ADDR_RES_HEAT_0, ADDR_SOFT_RESET, CHIP_ID,
    CMD_SOFT_RESET, MAX_POLL_ATTEMPTS, SETTLE_DELAY_US};
use crate::data::CalibrationData;
use crate::i2c_helper::spec_extract_calibration;

/// One bus exchange or pause the embedding is asked to perform.
#[derive(Debug, Clone, Copy, PartialEq, Eq, Structural)]
pub enum Action {
    /// Write the value to the register.
    Write { reg: u8, val: u8 },
    /// Read `len` bytes starting at the register.
    Read { reg: u8, len: u8 },
    /// Wait for the given number of microseconds.
    DelayUs { us: u32 },
}

/// What the embedding reports back after performing an action.
#[derive(Debug)]
pub enum Reply {
    /// A write went through.
    Ack,
    /// A delay elapsed.
    Elapsed,
    /// A read went through; the bytes it returned.
    Bytes(Vec<u8>),
}

/// The first byte a reply carries, for contracts about single-byte reads.
pub open spec fn spec_reply_byte(r: Reply) -> u8 {
    match r {
        Reply::Bytes(b) => if b@.len() > 0 {
            b@[0]
        } else {
            0
        },
        _ => 0,
    }
}

/// The bytes a reply carries.
pub open spec fn spec_reply_bytes(r: Reply) -> Seq<u8> {
    match r {
        Reply::Bytes(b) => b@,
        _ => Seq::empty(),
    }
}

// ---------------------------------------------------------------------
// Construction: soft reset, settle, chip identity, calibration read.
// ---------------------------------------------------------------------

/// Where the construction protocol stands.
#[derive(Debug, Clone, Copy, PartialEq, Eq, Structural)]
pub enum SetupPhase {
    /// The soft-reset write is on the bus.
    AwaitResetAck,
    /// The settle delay is running.
    AwaitSettle,
    /// The chip-identity read is on the bus.
    AwaitChipId,
    /// The first coefficient block read is on the bus.
    AwaitCoeff1,
    /// The second coefficient block read is on the bus.
    AwaitCoeff2,
    /// The third coefficient block read is on the bus.
    AwaitCoeff3,
    /// The calibration record has been handed out.
    Complete,
    /// The chip identity was wrong; nothing further is issued.
    Failed,
}

/// What a construction step decided.
#[derive(Debug)]
pub enum SetupStep {
    /// Perform this next.
    Continue(Action),
    /// The device answered with the decoded calibration record.
    Ready(CalibrationData),
    /// The chip-identity register reported this byte instead of the
    /// recognized identity; construction stops without touching the
    /// calibration registers.
    BadChipId(u8),
}

/// The action construction opens with: the soft-reset command write.
pub open spec fn spec_setup_initial_action() -> Action {
    Action::Write { reg: ADDR_SOFT_RESET, val: CMD_SOFT_RESET }
}

/// Spec-level image of a construction machine: its phase and the
/// coefficient bytes gathered so far.
pub struct SetupModel {
    pub phase: SetupPhase,
    pub buf: Seq<u8>,
}

/// Runs the construction protocol against the device: soft reset, settle
/// delay, chip-identity check, then the three coefficient block reads, in
/// that order. A wrong identity stops the machine before any coefficient
/// read is issued.
pub struct SetupMachine {
    pub phase: SetupPhase,
    pub buf: Vec<u8>,
}

/// The reply shape each phase expects from the embedding.
pub open spec fn spec_setup_expects(phase: SetupPhase, reply: Reply) -> bool {
    match phase {
        SetupPhase::AwaitResetAck => reply is Ack,
        SetupPhase::AwaitSettle => reply is Elapsed,
        SetupPhase::AwaitChipId => spec_reply_bytes(reply).len() == 1 && reply is Bytes,
        SetupPhase::AwaitCoeff1 => spec_reply_bytes(reply).len() == 23 && reply is Bytes,
        SetupPhase::AwaitCoeff2 => spec_reply_bytes(reply).len() == 14 && reply is Bytes,
        SetupPhase::AwaitCoeff3 => spec_reply_bytes(reply).len() == 5 && reply is Bytes,
        SetupPhase::Complete => false,
        SetupPhase::Failed => false,
    }
}

/// How many coefficient bytes a machine in each phase has gathered.
pub open spec fn spec_setup_wf(s: SetupModel) -> bool {
    match s.phase {
        SetupPhase::AwaitResetAck => s.buf.len() == 0,
        SetupPhase::AwaitSettle => s.buf.len() == 0,
        SetupPhase::AwaitChipId => s.buf.len() == 0,
        SetupPhase::AwaitCoeff1 => s.buf.len() == 0,
        SetupPhase::AwaitCoeff2 => s.buf.len() == 23,
        SetupPhase::AwaitCoeff3 => s.buf.len() == 37,
        SetupPhase::Complete => true,
        SetupPhase::Failed => true,
    }
}

/// The construction transition function. `bytes` is what the reply read
/// from the bus, empty for an acknowledged write or an elapsed delay.
pub open spec fn spec_setup_step(s: SetupModel, bytes: Seq<u8>) -> (SetupModel, SetupStep) {
    match s.phase {
        SetupPhase::AwaitResetAck => (
            SetupModel { phase: SetupPhase::AwaitSettle, ..s },
            SetupStep::Continue(Action::DelayUs { us: SETTLE_DELAY_US }),
        ),
        SetupPhase::AwaitSettle => (
            SetupModel { phase: SetupPhase::AwaitChipId, ..s },
            SetupStep::Continue(Action::Read { reg: ADDR_CHIP_ID, len: 1 }),
        ),
        SetupPhase::AwaitChipId => if bytes[0] == CHIP_ID {
            (
                SetupModel { phase: SetupPhase::AwaitCoeff1, ..s },
                SetupStep::Continue(Action::Read { reg: ADDR_REG_COEFF1, len: 23 }),
            )
        } else {
            (SetupModel { phase: SetupPhase::Failed, ..s }, SetupStep::BadChipId(bytes[0]))
        },
        SetupPhase::AwaitCoeff1 => (
            SetupModel { phase: SetupPhase::AwaitCoeff2, buf: s.buf + bytes },
            SetupStep::Continue(Action::Read { reg: ADDR_REG_COEFF2, len: 14 }),
        ),
        SetupPhase::AwaitCoeff2 => (
            SetupModel { phase: SetupPhase::AwaitCoeff3, buf: s.buf + bytes },
            SetupStep::Continue(Action::Read { reg: ADDR_REG_COEFF3, len: 5 }),
        ),
        SetupPhase::AwaitCoeff3 => (
            SetupModel { phase: SetupPhase::Complete, buf: s.buf + bytes },
            SetupStep::Ready(spec_extract_calibration(s.buf + bytes)),
        ),
        SetupPhase::Complete => (s, SetupStep::BadChipId(0)),
        SetupPhase::Failed => (s, SetupStep::BadChipId(0)),
    }
}

impl SetupMachine {
    /// Spec-level image of this machine.
    pub open spec fn model(&self) -> SetupModel {
        SetupModel { phase: self.phase, buf: self.buf@ }
    }

    /// Starts construction: the soft-reset command goes out first.
    pub fn new() -> (r: (SetupMachine, Action))
        ensures
            r.0.phase == SetupPhase::AwaitResetAck,
            r.0.buf@ == Seq::<u8>::empty(),
            spec_setup_wf(r.0.model()),
            r.1 == spec_setup_initial_action(),
            r.1 == (Action::Write { reg: ADDR_SOFT_RESET, val: CMD_SOFT_RESET }),
    {
        let m = SetupMachine { phase: SetupPhase::AwaitResetAck, buf: Vec::new() };
        (m, Action::Write { reg: ADDR_SOFT_RESET, val: CMD_SOFT_RESET })
    }

    /// Advances on the reply to the last action, exactly as
    /// [`spec_setup_step`] says.
    pub fn step(&mut self, reply: Reply) -> (r: SetupStep)
        requires
            spec_setup_wf(old(self).model()),
            spec_setup_expects(old(self).phase, reply),
        ensures
            spec_setup_wf(final(self).model()),
            (final(self).model(), r) == spec_setup_step(old(self).model(), spec_reply_bytes(
                reply,
            )),
    {
        match self.phase {
            SetupPhase::AwaitResetAck => {
                self.phase = SetupPhase::AwaitSettle;
                SetupStep::Continue(Action::DelayUs { us: SETTLE_DELAY_US })
            },
            SetupPhase::AwaitSettle => {
                self.phase = SetupPhase::AwaitChipId;
                SetupStep::Continue(Action::Read { reg: ADDR_CHIP_ID, len: 1 })
            },
            SetupPhase::AwaitChipId => {
                let b = match &reply {
                    Reply::Bytes(v) => v[0],
                    _ => 0,
                };
                if b == CHIP_ID {
                    self.phase = SetupPhase::AwaitCoeff1;
                    SetupStep::Continue(Action::Read { reg: ADDR_REG_COEFF1, len: 23 })
                } else {
                    self.phase = SetupPhase::Failed;
                    SetupStep::BadChipId(b)
                }
            },
            SetupPhase::AwaitCoeff1 => {
                self.absorb(reply);
                self.phase = SetupPhase::AwaitCoeff2;
                SetupStep::Continue(Action::Read { reg: ADDR_REG_COEFF2, len: 14 })
            },
            SetupPhase::AwaitCoeff2 => {
                self.absorb(reply);
                self.phase = SetupPhase::AwaitCoeff3;
                SetupStep::Continue(Action::Read { reg: ADDR_REG_COEFF3, len: 5 })
            },
            SetupPhase::AwaitCoeff3 => {
                self.absorb(reply);
                self.phase = SetupPhase::Complete;
                let mut arr: [u8; 42] = [0; 42];
                let mut i: usize = 0;
                while i < 42
                    invariant
                        i <= 42,
                        self.buf@.len() == 42,
                        forall|j: int| 0 <= j < i ==> arr@[j] == self.buf@[j],
                    decreases 42 - i,
                {
                    arr[i] = self.buf[i];
                    i = i + 1;
                }
                proof {
                    assert(arr@ =~= self.buf@);
                }
                SetupStep::Ready(crate::i2c_helper::extract_calibration_data(arr))
            },
            SetupPhase::Complete => SetupStep::BadChipId(0),
            SetupPhase::Failed => SetupStep::BadChipId(0),
        }
    }

    /// Appends a reply's bytes to the coefficient buffer.
    fn absorb(&mut self, reply: Reply)
        ensures
            final(self).buf@ == old(self).buf@ + spec_reply_bytes(reply),
            final(self).phase == old(self).phase,
    {
        match reply {
            Reply::Bytes(v) => {
                let mut i: usize = 0;
                while i < v.len()
                    invariant
                        i <= v.len(),
                        self.buf@ == old(self).buf@ + v@.take(i as int),
                        self.phase == old(self).phase,
                    decreases v.len() - i,
                {
                    self.buf.push(v[i]);
                    proof {
                        assert(v@.take(i + 1int) =~= v@.take(i as int).push(v@[i as int]));
                    }
                    i = i + 1;
                }
                proof {
                    assert(v@.take(v@.len() as int) =~= v@);
                }
            },
            _ => {
                proof {
                    assert(self.buf@ =~= old(self).buf@ + Seq::<u8>::empty());
                }
            },
        }
    }
}

// ---------------------------------------------------------------------
// Mode transition: drain to sleep, then arm if asked to.
// ---------------------------------------------------------------------

/// Where a mode transition stands.
#[derive(Debug, Clone, Copy, PartialEq, Eq, Structural)]
pub enum ModePhase {
    /// The control-register read is on the bus.
    AwaitCtrl,
    /// The sleep write of the drain loop is on the bus.
    AwaitSleepWrite,
    /// The settle delay of the drain loop is running.
    AwaitSettle,
    /// The forced write is on the bus.
    AwaitForcedWrite,
    /// The transition is finished.
    Done,
}

/// What a mode-transition step decided.
#[derive(Debug, Clone, Copy, PartialEq, Eq, Structural)]
pub enum ModeStep {
    /// Perform this next.
    Continue(Action),
    /// The device is in the requested mode.
    Finished,
}

/// Enforces the device's transition rule: before anything is armed, the
/// control register must be observed in sleep. A register observed forced
/// is written back to sleep, the settle delay is waited, and the register
/// is read again, until sleep is observed; only then, and only for a
/// forced request, is the forced mode written. The device is read before
/// every decision because it, not a cached value, is the source of truth.
pub struct ModeMachine {
    pub target: SensorMode,
    pub phase: ModePhase,
}

/// The reply shape each phase expects from the embedding.
pub open spec fn spec_mode_expects(phase: ModePhase, reply: Reply) -> bool {
    match phase {
        ModePhase::AwaitCtrl => spec_reply_bytes(reply).len() == 1 && reply is Bytes,
        ModePhase::AwaitSleepWrite => reply is Ack,
        ModePhase::AwaitSettle => reply is Elapsed,
        ModePhase::AwaitForcedWrite => reply is Ack,
        ModePhase::Done => false,
    }
}

/// A control-register byte with its mode bits replaced, as a byte.
pub open spec fn spec_with_mode_byte(c: u8, mode: SensorMode) -> u8 {
    spec_with_mode(c as int, mode) as u8
}

/// The mode-transition function. `byte` is the control register value a
/// read returned, ignored after writes and delays.
pub open spec fn spec_mode_step(m: ModeMachine, byte: u8) -> (ModeMachine, ModeStep) {
    match m.phase {
        ModePhase::AwaitCtrl => {
            if spec_mode_of(byte as int) == SensorMode::Sleep {
                match m.target {
                    SensorMode::Sleep => (ModeMachine { phase: ModePhase::Done, ..m },
                    ModeStep::Finished),
                    SensorMode::Forced => (
                        ModeMachine { phase: ModePhase::AwaitForcedWrite, ..m },
                        ModeStep::Continue(
                            Action::Write {
                                reg: ADDR_CONTROL_MODE,
                                val: spec_with_mode_byte(byte, SensorMode::Forced),
                            },
                        ),
                    ),
                }
            } else {
                (
                    ModeMachine { phase: ModePhase::AwaitSleepWrite, ..m },
                    ModeStep::Continue(
                        Action::Write {
                            reg: ADDR_CONTROL_MODE,
                            val: spec_with_mode_byte(byte, SensorMode::Sleep),
                        },
                    ),
                )
            }
        },
        ModePhase::AwaitSleepWrite => (
            ModeMachine { phase: ModePhase::AwaitSettle, ..m },
            ModeStep::Continue(Action::DelayUs { us: SETTLE_DELAY_US }),
        ),
        ModePhase::AwaitSettle => (
            ModeMachine { phase: ModePhase::AwaitCtrl, ..m },
            ModeStep::Continue(Action::Read { reg: ADDR_CONTROL_MODE, len: 1 }),
        ),
        ModePhase::AwaitForcedWrite => (ModeMachine { phase: ModePhase::Done, ..m },
        ModeStep::Finished),
        ModePhase::Done => (m, ModeStep::Finished),
    }
}

impl ModeMachine {
    /// Starts a transition to the given mode: the control register is
    /// read first.
    pub fn new(target: SensorMode) -> (r: (ModeMachine, Action))
        ensures
            r.0.target == target,
            r.0.phase == ModePhase::AwaitCtrl,
            r.1 == (Action::Read { reg: ADDR_CONTROL_MODE, len: 1 }),
    {
        (
            ModeMachine { target, phase: ModePhase::AwaitCtrl },
            Action::Read { reg: ADDR_CONTROL_MODE, len: 1 },
        )
    }

    /// Advances on the reply to the last action, exactly as
    /// [`spec_mode_step`] says.
    pub fn step(&mut self, reply: &Reply) -> (r: ModeStep)
        requires
            spec_mode_expects(old(self).phase, *reply),
        ensures
            (*final(self), r) == spec_mode_step(*old(self), spec_reply_byte(*reply)),
    {
        match self.phase {
            ModePhase::AwaitCtrl => {
                let c: u8 = match reply {
                    Reply::Bytes(v) => v[0],
                    _ => 0,
                };
                let sleeping: bool = c % 4 == 0;
                if sleeping {
                    match self.target {
                        SensorMode::Sleep => {
                            self.phase = ModePhase::Done;
                            ModeStep::Finished
                        },
                        SensorMode::Forced => {
                            self.phase = ModePhase::AwaitForcedWrite;
                            ModeStep::Continue(
                                Action::Write { reg: ADDR_CONTROL_MODE, val: (c / 4) * 4 + 1 },
                            )
                        },
                    }
                } else {
                    self.phase = ModePhase::AwaitSleepWrite;
                    ModeStep::Continue(Action::Write { reg: ADDR_CONTROL_MODE, val: (c / 4) * 4 })
                }
            },
            ModePhase::AwaitSleepWrite => {
                self.phase = ModePhase::AwaitSettle;
                ModeStep::Continue(Action::DelayUs { us: SETTLE_DELAY_US })
            },
            ModePhase::AwaitSettle => {
                self.phase = ModePhase::AwaitCtrl;
                ModeStep::Continue(Action::Read { reg: ADDR_CONTROL_MODE, len: 1 })
            },
            ModePhase::AwaitForcedWrite => {
                self.phase = ModePhase::Done;
                ModeStep::Finished
            },
            ModePhase::Done => ModeStep::Finished,
        }
    }
}

// ---------------------------------------------------------------------
// Measurement poll: a bounded number of result-block reads.
// ---------------------------------------------------------------------

/// A result block qualifies when the device is no longer measuring and
/// reports fresh data.
pub open spec fn spec_poll_ready(s: Seq<u8>) -> bool {
    !spec_raw_measuring(s) && spec_raw_new_data(s)
}

/// What a poll attempt decided.
#[derive(Debug, Clone, Copy, PartialEq, Eq, Structural)]
pub enum PollOutcome {
    /// The block qualifies; hand it to the compensation engine.
    Ready,
    /// The block does not qualify yet; wait the delay period and read the
    /// result block again.
    RetryAfterDelay,
    /// The bounded attempts are used up: the measurement timed out. A
    /// timeout after correctly delayed polls points at a device or wiring
    /// fault, not at normal operation.
    TimedOut,
}

/// The poll transition function: a qualifying block is accepted without
/// using an attempt up; an unqualifying one uses an attempt, and using
/// the last one up is the timeout.
pub open spec fn spec_poll_step(attempts_left: int, ready: bool) -> (int, PollOutcome) {
    if ready {
        (attempts_left, PollOutcome::Ready)
    } else if attempts_left > 1 {
        (attempts_left - 1, PollOutcome::RetryAfterDelay)
    } else {
        (0int, PollOutcome::TimedOut)
    }
}

/// Accepts or rejects result blocks, up to
/// [`MAX_POLL_ATTEMPTS`] of them per measurement.
pub struct MeasurementPoller {
    pub attempts_left: u8,
}

impl MeasurementPoller {
    pub fn new() -> (r: MeasurementPoller)
        ensures
            r.attempts_left == MAX_POLL_ATTEMPTS,
    {
        MeasurementPoller { attempts_left: MAX_POLL_ATTEMPTS }
    }

    /// Judges one result block. Exactly when the block shows the device
    /// idle with fresh data it is accepted; otherwise an attempt is used
    /// up, and the last attempt's failure is the timeout.
    pub fn offer(&mut self, raw: &crate::bitfields::RawData) -> (r: PollOutcome)
        requires
            old(self).attempts_left > 0,
        ensures
            spec_poll_ready(raw.0@) ==> r == PollOutcome::Ready && final(self).attempts_left
                == old(self).attempts_left,
            !spec_poll_ready(raw.0@) && old(self).attempts_left > 1 ==> r
                == PollOutcome::RetryAfterDelay && final(self).attempts_left == old(
                self,
            ).attempts_left - 1,
            !spec_poll_ready(raw.0@) && old(self).attempts_left == 1 ==> r == PollOutcome::TimedOut
                && final(self).attempts_left == 0,
            (final(self).attempts_left as int, r) == spec_poll_step(
                old(self).attempts_left as int,
                spec_poll_ready(raw.0@),
            ),
    {
        if !raw.measuring() && raw.new_data() {
            PollOutcome::Ready
        } else {
            self.attempts_left = self.attempts_left - 1;
            if self.attempts_left == 0 {
                PollOutcome::TimedOut
            } else {
                PollOutcome::RetryAfterDelay
            }
        }
    }
}

// ---------------------------------------------------------------------
// Configuration: read the register image, merge, write back, heater.
// ---------------------------------------------------------------------

/// Where the configuration protocol stands.
#[derive(Debug, Clone, Copy, PartialEq, Eq, Structural)]
pub enum ConfigPhase {
    /// The read of the five-register image is on the bus.
    AwaitImage,
    /// Register writes are going out; this many have been issued.
    Writing(u8),
    /// The heater wait-time write is on the bus.
    AwaitGasWait,
    /// The heater target-resistance write is on the bus.
    AwaitResHeat,
    /// The new image has been handed out.
    Done,
}

/// What a configuration step decided.
#[derive(Debug)]
pub enum ConfigStep {
    /// Perform this next.
    Continue(Action),
    /// Configuration is applied; the new register image, from which the
    /// measurement delay is derived.
    Finished(RawConfig),
}

/// Applies a partial configuration: reads the current register image,
/// merges the present values onto it, writes all five registers back in
/// register-map order, and, when a heater profile is present, derives and
/// writes the heater wait-time and target-resistance registers from the
/// profile, the calibration record and the ambient temperature. The
/// device must be asleep when this runs.
pub struct ConfigMachine {
    pub phase: ConfigPhase,
    pub conf: Configuration,
    pub calib: CalibrationData,
    pub ambient: i32,
    pub image: RawConfig,
}

/// The reply shape each phase expects from the embedding.
pub open spec fn spec_config_expects(phase: ConfigPhase, reply: Reply) -> bool {
    match phase {
        ConfigPhase::AwaitImage => spec_reply_bytes(reply).len() == 5 && reply is Bytes,
        ConfigPhase::Writing(i) => reply is Ack && 1 <= i <= 5,
        ConfigPhase::AwaitGasWait => reply is Ack,
        ConfigPhase::AwaitResHeat => reply is Ack,
        ConfigPhase::Done => false,
    }
}

impl ConfigMachine {
    /// Starts applying the configuration: the current image is read first.
    pub fn new(conf: &Configuration, calib: &CalibrationData, ambient: i32) -> (r: (
        ConfigMachine,
        Action,
    ))
        ensures
            r.0.phase == ConfigPhase::AwaitImage,
            r.0.conf == *conf,
            r.0.calib == *calib,
            r.0.ambient == ambient,
            r.1 == (Action::Read { reg: ADDR_CONFIG, len: 5 }),
    {
        (
            ConfigMachine {
                phase: ConfigPhase::AwaitImage,
                conf: *conf,
                calib: *calib,
                ambient,
                image: RawConfig([0, 0, 0, 0, 0]),
            },
            Action::Read { reg: ADDR_CONFIG, len: 5 },
        )
    }

    /// Advances on the reply to the last action.
    ///
    /// On the image reply, the merged image is fixed and its first byte
    /// goes out; each acknowledged register write sends the next byte at
    /// the next register-map address; after the fifth, a present heater
    /// profile appends the two heater writes. The machine finishes with
    /// the merged image.
    pub fn step(&mut self, reply: Reply) -> (r: ConfigStep)
        requires
            spec_config_expects(old(self).phase, reply),
        ensures
            final(self).conf == old(self).conf,
            final(self).calib == old(self).calib,
            final(self).ambient == old(self).ambient,
            old(self).phase == ConfigPhase::AwaitImage ==> {
                let b = spec_reply_bytes(reply);
                final(self).image.0@[0] == spec_cfg_gas_byte(b[0] as int, old(self).conf)
                    && final(self).image.0@[1] == spec_cfg_hum_byte(b[1] as int, old(self).conf)
                    && final(self).image.0@[2] == b[2] && final(self).image.0@[3]
                    == spec_cfg_meas_byte(b[3] as int, old(self).conf) && final(self).image.0@[4]
                    == spec_cfg_filter_byte(b[4] as int, old(self).conf) && final(self).phase
                    == ConfigPhase::Writing(1) && r == ConfigStep::Continue(
                    Action::Write { reg: ADDR_CONFIG, val: final(self).image.0@[0] },
                )
            },
            old(self).phase matches ConfigPhase::Writing(i) ==> final(self).image == old(
                self,
            ).image,
            forall|i: u8|
                old(self).phase == ConfigPhase::Writing(i) && i < 5 ==> final(self).phase
                    == ConfigPhase::Writing((i + 1) as u8) && r == ConfigStep::Continue(
                    Action::Write {
                        reg: (ADDR_CONFIG + i) as u8,
                        val: old(self).image.0@[i as int],
                    },
                ),
            old(self).phase == ConfigPhase::Writing(5) && old(self).conf.gas_config is None ==> r
                == ConfigStep::Finished(old(self).image) && final(self).phase == ConfigPhase::Done,
            forall|gc: crate::config::GasConfig|
                old(self).phase == ConfigPhase::Writing(5) && old(self).conf.gas_config == Some(gc)
                    ==> final(self).phase == ConfigPhase::AwaitGasWait && (r matches
                ConfigStep::Continue(a) && a matches Action::Write { reg, val } && reg
                    == ADDR_GAS_WAIT_0 && val as int == spec_gas_wait(
                    gc.heater_duration as int,
                )),
            forall|gc: crate::config::GasConfig|
                old(self).phase == ConfigPhase::AwaitGasWait && old(self).conf.gas_config == Some(
                    gc,
                ) ==> final(self).phase == ConfigPhase::AwaitResHeat && (r matches
                ConfigStep::Continue(a) && a matches Action::Write { reg, val } && reg
                    == ADDR_RES_HEAT_0 && val as int == spec_res_heat(
                    old(self).calib,
                    old(self).ambient as int,
                    gc.heater_target_temperature as int,
                )),
            old(self).phase == ConfigPhase::AwaitResHeat ==> r == ConfigStep::Finished(
                old(self).image,
            ) && final(self).phase == ConfigPhase::Done,
    {
        match self.phase {
            ConfigPhase::AwaitImage => {
                let b: Vec<u8> = match reply {
                    Reply::Bytes(v) => v,
                    _ => Vec::new(),
                };
                let mut image = RawConfig([b[0], b[1], b[2], b[3], b[4]]);
                image.apply_config(&self.conf);
                self.image = image;
                self.phase = ConfigPhase::Writing(1);
                ConfigStep::Continue(Action::Write { reg: ADDR_CONFIG, val: self.image.0[0] })
            },
            ConfigPhase::Writing(i) => {
                if i < 5 {
                    self.phase = ConfigPhase::Writing(i + 1);
                    ConfigStep::Continue(
                        Action::Write { reg: ADDR_CONFIG + i, val: self.image.0[i as usize] },
                    )
                } else {
                    match self.conf.gas_config {
                        Some(gc) => {
                            self.phase = ConfigPhase::AwaitGasWait;
                            let val = gc.calc_gas_wait();
                            ConfigStep::Continue(Action::Write { reg: ADDR_GAS_WAIT_0, val })
                        },
                        None => {
                            self.phase = ConfigPhase::Done;
                            ConfigStep::Finished(self.image)
                        },
                    }
                }
            },
            ConfigPhase::AwaitGasWait => {
                match self.conf.gas_config {
                    Some(gc) => {
                        self.phase = ConfigPhase::AwaitResHeat;
                        let val = gc.calc_res_heat(&self.calib, self.ambient);
                        ConfigStep::Continue(Action::Write { reg: ADDR_RES_HEAT_0, val })
                    },
                    None => {
                        self.phase = ConfigPhase::Done;
                        ConfigStep::Finished(self.image)
                    },
                }
            },
            ConfigPhase::AwaitResHeat => {
                self.phase = ConfigPhase::Done;
                ConfigStep::Finished(self.image)
            },
            ConfigPhase::Done => ConfigStep::Finished(self.image),
        }
    }
}

} // verus!
