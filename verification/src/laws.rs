//! Statements of the driver's governing properties, proved once and for
//! all over the spec-level transition functions and formulas.

use vstd::prelude::*;

verus! {

use crate::bitfields::spec_mode_of;
use crate::config::{Oversampling, SensorMode, spec_cycles};
use crate::constants::{ADDR_CHIP_ID, ADDR_CONTROL_MODE, ADDR_REG_COEFF1, ADDR_SOFT_RESET, CHIP_ID,
    CMD_SOFT_RESET, MAX_POLL_ATTEMPTS, SETTLE_DELAY_US};
use crate::protocol::{Action, ModeMachine, ModePhase, ModeStep, PollOutcome, SetupModel,
    SetupPhase, SetupStep, spec_mode_step, spec_poll_step, spec_setup_initial_action,
    spec_setup_step, spec_with_mode_byte};
use crate::spec_delay_period_us;

/// How the oversampling levels are ordered.
pub open spec fn spec_os_level(o: Oversampling) -> int {
    match o {
        Oversampling::Skipped => 0,
        Oversampling::By1 => 1,
        Oversampling::By2 => 2,
        Oversampling::By4 => 3,
        Oversampling::By8 => 4,
        Oversampling::By16 => 5,
    }
}

/// A higher oversampling level never costs fewer cycles.
pub proof fn lemma_cycles_monotone(o1: Oversampling, o2: Oversampling)
    requires
        spec_os_level(o1) <= spec_os_level(o2),
    ensures
        spec_cycles(o1) <= spec_cycles(o2),
{
}

/// The measurement delay is monotonically non-decreasing in the
/// temperature channel's oversampling level, the other channels held
/// fixed.
pub proof fn lemma_delay_monotone_temperature(
    t1: Oversampling,
    t2: Oversampling,
    h: Oversampling,
    p: Oversampling,
)
    requires
        spec_os_level(t1) <= spec_os_level(t2),
    ensures
        spec_delay_period_us(t1, h, p) <= spec_delay_period_us(t2, h, p),
{
    lemma_cycles_monotone(t1, t2);
}

/// The measurement delay is monotonically non-decreasing in the humidity
/// channel's oversampling level, the other channels held fixed.
pub proof fn lemma_delay_monotone_humidity(
    t: Oversampling,
    h1: Oversampling,
    h2: Oversampling,
    p: Oversampling,
)
    requires
        spec_os_level(h1) <= spec_os_level(h2),
    ensures
        spec_delay_period_us(t, h1, p) <= spec_delay_period_us(t, h2, p),
{
    lemma_cycles_monotone(h1, h2);
}

/// The measurement delay is monotonically non-decreasing in the pressure
/// channel's oversampling level, the other channels held fixed.
pub proof fn lemma_delay_monotone_pressure(
    t: Oversampling,
    h: Oversampling,
    p1: Oversampling,
    p2: Oversampling,
)
    requires
        spec_os_level(p1) <= spec_os_level(p2),
    ensures
        spec_delay_period_us(t, h, p1) <= spec_delay_period_us(t, h, p2),
{
    lemma_cycles_monotone(p1, p2);
}

/// Requesting forced while the device reports forced: the transition
/// issues exactly one sleep write — the control byte with its mode bits
/// cleared — then the settle delay and a re-read; once that read observes
/// sleep, the one forced write goes out and the transition is done. No
/// other write is issued on this path.
pub proof fn lemma_forced_while_forced_drains_once(c1: u8, c2: u8)
    requires
        spec_mode_of(c1 as int) == SensorMode::Forced,
        spec_mode_of(c2 as int) == SensorMode::Sleep,
    ensures
        ({
            let m0 = ModeMachine { target: SensorMode::Forced, phase: ModePhase::AwaitCtrl };
            let (m1, s1) = spec_mode_step(m0, c1);
            let (m2, s2) = spec_mode_step(m1, 0);
            let (m3, s3) = spec_mode_step(m2, 0);
            let (m4, s4) = spec_mode_step(m3, c2);
            let (m5, s5) = spec_mode_step(m4, 0);
            s1 == ModeStep::Continue(
                Action::Write {
                    reg: ADDR_CONTROL_MODE,
                    val: spec_with_mode_byte(c1, SensorMode::Sleep),
                },
            ) && s2 == ModeStep::Continue(Action::DelayUs { us: SETTLE_DELAY_US }) && s3
                == ModeStep::Continue(Action::Read { reg: ADDR_CONTROL_MODE, len: 1 }) && s4
                == ModeStep::Continue(
                Action::Write {
                    reg: ADDR_CONTROL_MODE,
                    val: spec_with_mode_byte(c2, SensorMode::Forced),
                },
            ) && s5 == ModeStep::Finished && m5.phase == ModePhase::Done
        }),
{
}

/// Requesting forced while the device already reports sleep: no sleep
/// write is issued; the one forced write goes out at once and the
/// transition is done.
pub proof fn lemma_forced_while_sleeping_writes_once(c1: u8)
    requires
        spec_mode_of(c1 as int) == SensorMode::Sleep,
    ensures
        ({
            let m0 = ModeMachine { target: SensorMode::Forced, phase: ModePhase::AwaitCtrl };
            let (m1, s1) = spec_mode_step(m0, c1);
            let (m2, s2) = spec_mode_step(m1, 0);
            s1 == ModeStep::Continue(
                Action::Write {
                    reg: ADDR_CONTROL_MODE,
                    val: spec_with_mode_byte(c1, SensorMode::Forced),
                },
            ) && s2 == ModeStep::Finished && m2.phase == ModePhase::Done
        }),
{
}

/// Requesting sleep while the device already reports sleep issues no
/// write at all.
pub proof fn lemma_sleep_while_sleeping_writes_nothing(c1: u8)
    requires
        spec_mode_of(c1 as int) == SensorMode::Sleep,
    ensures
        ({
            let m0 = ModeMachine { target: SensorMode::Sleep, phase: ModePhase::AwaitCtrl };
            let (m1, s1) = spec_mode_step(m0, c1);
            s1 == ModeStep::Finished && m1.phase == ModePhase::Done
        }),
{
}

/// One round of the drain loop, whatever the requested mode: a control
/// byte that does not report sleep costs exactly one write — the sleep
/// write — followed by the settle delay and the re-read, after which the
/// machine is back at judging the control register. No forced write
/// occurs inside a drain round, so the forced write can only follow an
/// observation of sleep.
pub proof fn lemma_drain_round_issues_one_sleep_write(target: SensorMode, c: u8)
    requires
        spec_mode_of(c as int) == SensorMode::Forced,
    ensures
        ({
            let m0 = ModeMachine { target, phase: ModePhase::AwaitCtrl };
            let (m1, s1) = spec_mode_step(m0, c);
            let (m2, s2) = spec_mode_step(m1, 0);
            let (m3, s3) = spec_mode_step(m2, 0);
            s1 == ModeStep::Continue(
                Action::Write {
                    reg: ADDR_CONTROL_MODE,
                    val: spec_with_mode_byte(c, SensorMode::Sleep),
                },
            ) && s2 == ModeStep::Continue(Action::DelayUs { us: SETTLE_DELAY_US }) && s3
                == ModeStep::Continue(Action::Read { reg: ADDR_CONTROL_MODE, len: 1 }) && m3
                == m0
        }),
{
}

/// The write actions a whole mode transition issues, given the sequence
/// of control bytes the successive reads return: stepping the machine
/// from its start through every phase, collecting each write it asks
/// for, until it finishes or runs out of reads.
pub open spec fn spec_mode_transition_writes(m: ModeMachine, reads: Seq<u8>) -> Seq<Action>
    decreases reads.len(), spec_mode_phase_rank(m.phase),
{
    match m.phase {
        ModePhase::Done => Seq::empty(),
        ModePhase::AwaitCtrl => if reads.len() == 0 {
            Seq::empty()
        } else {
            let (m1, s1) = spec_mode_step(m, reads[0]);
            spec_mode_step_writes(s1) + spec_mode_transition_writes(m1, reads.skip(1))
        },
        _ => {
            let (m1, s1) = spec_mode_step(m, 0);
            spec_mode_step_writes(s1) + spec_mode_transition_writes(m1, reads)
        },
    }
}

/// The writes one step outcome carries: the write action itself, or
/// nothing for a delay, a read, or the finish.
pub open spec fn spec_mode_step_writes(s: ModeStep) -> Seq<Action> {
    match s {
        ModeStep::Continue(a) => match a {
            Action::Write { reg, val } => seq![Action::Write { reg, val }],
            _ => Seq::empty(),
        },
        ModeStep::Finished => Seq::empty(),
    }
}

/// Orders the phases between two reads, so the transcript above is well
/// defined: each phase that consumes no read steps strictly down.
pub open spec fn spec_mode_phase_rank(p: ModePhase) -> int {
    match p {
        ModePhase::AwaitCtrl => 0,
        ModePhase::AwaitSleepWrite => 2,
        ModePhase::AwaitSettle => 1,
        ModePhase::AwaitForcedWrite => 1,
        ModePhase::Done => 0,
    }
}

/// A read sequence that drains: some number of non-sleep observations,
/// then one observation of sleep.
pub open spec fn spec_drains(reads: Seq<u8>) -> bool {
    reads.len() >= 1 && (forall|i: int|
        0 <= i < reads.len() - 1 ==> spec_mode_of(#[trigger] reads[i] as int)
            == SensorMode::Forced) && spec_mode_of(reads[reads.len() - 1] as int)
        == SensorMode::Sleep
}

/// The general transition transcript, for every length of drain: a
/// transition to forced issues exactly one sleep write for each read
/// that did not observe sleep, in read order, and exactly one forced
/// write — the last write of all, after the read that observed sleep.
pub proof fn lemma_forced_transition_transcript(reads: Seq<u8>)
    requires
        spec_drains(reads),
    ensures
        ({
            let m0 = ModeMachine { target: SensorMode::Forced, phase: ModePhase::AwaitCtrl };
            let ws = spec_mode_transition_writes(m0, reads);
            ws.len() == reads.len() && (forall|i: int|
                0 <= i < reads.len() - 1 ==> #[trigger] ws[i] == (Action::Write {
                    reg: ADDR_CONTROL_MODE,
                    val: spec_with_mode_byte(reads[i], SensorMode::Sleep),
                })) && ws[ws.len() - 1] == (Action::Write {
                reg: ADDR_CONTROL_MODE,
                val: spec_with_mode_byte(reads[reads.len() - 1], SensorMode::Forced),
            })
        }),
    decreases reads.len(),
{
    let m0 = ModeMachine { target: SensorMode::Forced, phase: ModePhase::AwaitCtrl };
    let ws = spec_mode_transition_writes(m0, reads);
    let tail = reads.skip(1);
    let (m1, s1) = spec_mode_step(m0, reads[0]);
    assert(ws == spec_mode_step_writes(s1) + spec_mode_transition_writes(m1, tail));
    if reads.len() == 1 {
        assert(m1.phase == ModePhase::AwaitForcedWrite);
        let (m2, s2) = spec_mode_step(m1, 0);
        assert(m2.phase == ModePhase::Done);
        assert(spec_mode_transition_writes(m2, tail) == Seq::<Action>::empty());
        assert(spec_mode_transition_writes(m1, tail) == spec_mode_step_writes(s2)
            + spec_mode_transition_writes(m2, tail));
        assert(ws =~= seq![
            Action::Write {
                reg: ADDR_CONTROL_MODE,
                val: spec_with_mode_byte(reads[0], SensorMode::Forced),
            },
        ]);
    } else {
        assert(spec_mode_of(reads[0] as int) == SensorMode::Forced);
        assert(m1.phase == ModePhase::AwaitSleepWrite);
        let (m2, s2) = spec_mode_step(m1, 0);
        let (m3, s3) = spec_mode_step(m2, 0);
        assert(m3 == m0);
        assert(spec_mode_transition_writes(m1, tail) == spec_mode_step_writes(s2)
            + spec_mode_transition_writes(m2, tail));
        assert(spec_mode_transition_writes(m2, tail) == spec_mode_step_writes(s3)
            + spec_mode_transition_writes(m3, tail));
        assert(spec_drains(tail)) by {
            assert(forall|i: int| 0 <= i < tail.len() - 1 ==> #[trigger] tail[i] == reads[i + 1]);
            assert(tail[tail.len() - 1] == reads[reads.len() - 1]);
        }
        lemma_forced_transition_transcript(tail);
        let tws = spec_mode_transition_writes(m0, tail);
        assert(ws =~= seq![
            Action::Write {
                reg: ADDR_CONTROL_MODE,
                val: spec_with_mode_byte(reads[0], SensorMode::Sleep),
            },
        ] + tws);
        assert(forall|i: int| 0 <= i < tail.len() ==> #[trigger] tail[i] == reads[i + 1]);
        assert(forall|i: int|
            1 <= i < reads.len() - 1 ==> #[trigger] ws[i] == tws[i - 1] && tws[i - 1]
                == (Action::Write {
                reg: ADDR_CONTROL_MODE,
                val: spec_with_mode_byte(reads[i], SensorMode::Sleep),
            }));
        assert(ws[ws.len() - 1] == tws[tws.len() - 1]);
    }
}

/// Construction in the face of a wrong chip identity: the transcript up
/// to the identity reply is exactly the soft-reset write, the settle
/// delay, and the identity read; any reply other than the recognized
/// identity stops the machine with that byte, before any calibration
/// read is issued — the identity read is the only read on this path.
pub proof fn lemma_unexpected_identity_halts_setup(id: u8)
    requires
        id != CHIP_ID,
    ensures
        ({
            let s0 = SetupModel { phase: SetupPhase::AwaitResetAck, buf: Seq::empty() };
            let (s1, a1) = spec_setup_step(s0, Seq::empty());
            let (s2, a2) = spec_setup_step(s1, Seq::empty());
            let (s3, a3) = spec_setup_step(s2, seq![id]);
            spec_setup_initial_action() == (Action::Write { reg: ADDR_SOFT_RESET, val: CMD_SOFT_RESET })
                && a1 == SetupStep::Continue(Action::DelayUs { us: SETTLE_DELAY_US }) && a2
                == SetupStep::Continue(Action::Read { reg: ADDR_CHIP_ID, len: 1 }) && a3
                == SetupStep::BadChipId(id) && s3.phase == SetupPhase::Failed
        }),
{
}

/// Construction with the right identity goes on to the calibration
/// reads: the reply carrying the recognized identity is answered with the
/// first coefficient block read.
pub proof fn lemma_recognized_identity_reads_calibration()
    ensures
        ({
            let s2 = SetupModel { phase: SetupPhase::AwaitChipId, buf: Seq::empty() };
            let (s3, a3) = spec_setup_step(s2, seq![CHIP_ID]);
            a3 == SetupStep::Continue(Action::Read { reg: ADDR_REG_COEFF1, len: 23 }) && s3.phase
                == SetupPhase::AwaitCoeff1
        }),
{
}

/// The outcomes one measurement's poll produces, fed the qualification
/// of each successive result block: retries are followed up, and the
/// first acceptance or the timeout ends the poll.
pub open spec fn spec_poll_run(attempts_left: int, readies: Seq<bool>) -> Seq<PollOutcome>
    decreases readies.len(),
{
    if readies.len() == 0 {
        Seq::empty()
    } else {
        let (n1, o1) = spec_poll_step(attempts_left, readies[0]);
        if o1 == PollOutcome::RetryAfterDelay {
            seq![o1] + spec_poll_run(n1, readies.skip(1))
        } else {
            seq![o1]
        }
    }
}

/// A poll granted some number of attempts, none of whose blocks
/// qualifies, polls exactly that many times: each attempt but the last is
/// answered with a retry, the last with the timeout.
pub proof fn lemma_poll_run_exhausts(attempts: int, readies: Seq<bool>)
    requires
        1 <= attempts,
        readies.len() >= attempts,
        forall|i: int| 0 <= i < attempts ==> !(#[trigger] readies[i]),
    ensures
        ({
            let outs = spec_poll_run(attempts, readies);
            outs.len() == attempts && (forall|i: int|
                0 <= i < attempts - 1 ==> #[trigger] outs[i] == PollOutcome::RetryAfterDelay)
                && outs[attempts - 1] == PollOutcome::TimedOut
        }),
    decreases attempts,
{
    let outs = spec_poll_run(attempts, readies);
    if attempts == 1 {
        assert(outs =~= seq![PollOutcome::TimedOut]);
    } else {
        let tail = readies.skip(1);
        assert(forall|i: int| 0 <= i < tail.len() ==> #[trigger] tail[i] == readies[i + 1]);
        lemma_poll_run_exhausts(attempts - 1, tail);
        assert(outs =~= seq![PollOutcome::RetryAfterDelay] + spec_poll_run(attempts - 1, tail));
    }
}

/// A poll whose first qualifying block is the `k`-th consumes exactly
/// `k` retries and then accepts, provided an attempt is left for it.
pub proof fn lemma_poll_run_accepts(attempts: int, k: int, readies: Seq<bool>)
    requires
        0 <= k < attempts,
        readies.len() > k,
        readies[k],
        forall|i: int| 0 <= i < k ==> !(#[trigger] readies[i]),
    ensures
        ({
            let outs = spec_poll_run(attempts, readies);
            outs.len() == k + 1 && (forall|i: int|
                0 <= i < k ==> #[trigger] outs[i] == PollOutcome::RetryAfterDelay) && outs[k]
                == PollOutcome::Ready
        }),
    decreases k,
{
    let outs = spec_poll_run(attempts, readies);
    if k == 0 {
        assert(outs =~= seq![PollOutcome::Ready]);
    } else {
        let tail = readies.skip(1);
        assert(forall|i: int| 0 <= i < tail.len() ==> #[trigger] tail[i] == readies[i + 1]);
        lemma_poll_run_accepts(attempts - 1, k - 1, tail);
        assert(outs =~= seq![PollOutcome::RetryAfterDelay] + spec_poll_run(attempts - 1, tail));
    }
}

/// Result blocks that never qualify yield the timeout after exactly the
/// bounded number of polls: four retries, then the timeout on the fifth.
pub proof fn lemma_poll_times_out_after_max_attempts(readies: Seq<bool>)
    requires
        readies.len() >= MAX_POLL_ATTEMPTS,
        forall|i: int| 0 <= i < MAX_POLL_ATTEMPTS ==> !(#[trigger] readies[i]),
    ensures
        ({
            let outs = spec_poll_run(MAX_POLL_ATTEMPTS as int, readies);
            outs.len() == MAX_POLL_ATTEMPTS && (forall|i: int|
                0 <= i < MAX_POLL_ATTEMPTS - 1 ==> #[trigger] outs[i]
                    == PollOutcome::RetryAfterDelay) && outs[MAX_POLL_ATTEMPTS - 1]
                == PollOutcome::TimedOut
        }),
{
    lemma_poll_run_exhausts(MAX_POLL_ATTEMPTS as int, readies);
}

/// A block that first qualifies on the last granted attempt is still
/// accepted: four retries, then the acceptance on the fifth poll.
pub proof fn lemma_poll_succeeds_on_last_attempt(readies: Seq<bool>)
    requires
        readies.len() >= MAX_POLL_ATTEMPTS,
        readies[MAX_POLL_ATTEMPTS - 1],
        forall|i: int| 0 <= i < MAX_POLL_ATTEMPTS - 1 ==> !(#[trigger] readies[i]),
    ensures
        ({
            let outs = spec_poll_run(MAX_POLL_ATTEMPTS as int, readies);
            outs.len() == MAX_POLL_ATTEMPTS && (forall|i: int|
                0 <= i < MAX_POLL_ATTEMPTS - 1 ==> #[trigger] outs[i]
                    == PollOutcome::RetryAfterDelay) && outs[MAX_POLL_ATTEMPTS - 1]
                == PollOutcome::Ready
        }),
{
    lemma_poll_run_accepts(MAX_POLL_ATTEMPTS as int, MAX_POLL_ATTEMPTS - 1, readies);
}

} // verus!
