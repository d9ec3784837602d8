//! The register-transfer protocols of initialisation and measurement, as
//! state machines.
//!
//! Each machine names the bus transfer (or wait) that has to happen next
//! (`Command`); the caller performs it and hands back what came of it
//! (`Reply`); the machine then decides the next command or the outcome.
//!
//! Initialisation: read the chip id (0xD0) and give up with `BadChipId` unless
//! it is 0x60; read the three calibration blocks (24 bytes at 0x88, 1 byte at
//! 0xA1, 7 bytes at 0xE1) and keep the decoded parameters; then write
//! `config` = 0x00 (no IIR filter, no standby), `ctrl_hum` = 0x01 (humidity
//! oversampling x1, written before `ctrl_meas` as the datasheet requires) and
//! `ctrl_meas` = 0x00 (sleep mode).
//!
//! Measurement: without calibration data, fail with `NotInitialized`;
//! otherwise write `ctrl_meas` = 0x25 (forced mode), poll `status` every
//! 10 ms until its `measuring` bit is clear, read the 8 data registers and
//! compensate them.
//!
//! A failed bus transfer ends either operation with `Error::I2c`.

use vstd::prelude::*;

use crate::bme280::{
    compute_reading,
    reading_spec,
    Bme280,
    Error,
    Reading,
    CHIP_ID,
    CTRL_MEAS_FORCED,
    DATA_LEN,
    POLL_INTERVAL_MS,
    REG_CALIB_H1,
    REG_CALIB_H2,
    REG_CALIB_TP,
    REG_CHIP_ID,
    REG_CONFIG,
    REG_CTRL_HUM,
    REG_CTRL_MEAS,
    REG_DATA_START,
    REG_STATUS,
    STATUS_MEASURING,
};
use crate::calibration::{decode, CalibData, CALIB_H_LEN, CALIB_TP_LEN};

verus! {

/// A bus transfer, or a wait, that a state machine asks for.
#[derive(Clone, Copy, Debug, PartialEq, Eq)]
pub enum Command {
    /// Read `len` consecutive registers starting at `reg`.
    Read { reg: u8, len: usize },
    /// Write `val` to register `reg`.
    Write { reg: u8, val: u8 },
    /// Wait `ms` milliseconds.
    Sleep { ms: u64 },
}

/// What came of a command.
#[derive(Debug)]
pub enum Reply<E> {
    /// The write, or the wait, completed.
    Done,
    /// The registers that were read, from the first one on; the bytes past
    /// the length asked for are of no account.
    Data([u8; MAX_READ_LEN]),
    /// The bus transfer failed with this error.
    Bus(E),
}

/// `reply` is a possible outcome of `cmd`: a read yields bytes, a write or a
/// wait completes, and a bus transfer may fail.
pub open spec fn answers<E>(cmd: Command, reply: Reply<E>) -> bool {
    match reply {
        Reply::Done => cmd is Write || cmd is Sleep,
        Reply::Data(_) => cmd is Read,
        Reply::Bus(_) => cmd is Read || cmd is Write,
    }
}

/// Size of the reply buffer: the longest read, the 24-byte calibration block.
pub const MAX_READ_LEN: usize = 24;

/// The temperature/pressure calibration block at the start of a reply.
pub open spec fn block_tp(v: [u8; MAX_READ_LEN]) -> [u8; CALIB_TP_LEN] {
    v
}

/// The H2..H6 calibration block at the start of a reply.
pub open spec fn block_h(v: [u8; MAX_READ_LEN]) -> [u8; CALIB_H_LEN] {
    [v[0], v[1], v[2], v[3], v[4], v[5], v[6]]
}

/// The data registers at the start of a reply.
pub open spec fn block_data(v: [u8; MAX_READ_LEN]) -> [u8; DATA_LEN] {
    [v[0], v[1], v[2], v[3], v[4], v[5], v[6], v[7]]
}

fn take_tp(v: &[u8; MAX_READ_LEN]) -> (r: [u8; CALIB_TP_LEN])
    ensures
        r == block_tp(*v),
{
    *v
}

fn take_h(v: &[u8; MAX_READ_LEN]) -> (r: [u8; CALIB_H_LEN])
    ensures
        r == block_h(*v),
{
    [v[0], v[1], v[2], v[3], v[4], v[5], v[6]]
}

fn take_data(v: &[u8; MAX_READ_LEN]) -> (r: [u8; DATA_LEN])
    ensures
        r == block_data(*v),
{
    [v[0], v[1], v[2], v[3], v[4], v[5], v[6], v[7]]
}

// ---- Initialisation ---------------------------------------------------------

/// Number of configuration writes at the end of initialisation.
pub const CONFIG_WRITES: usize = 3;

/// Where initialisation stands: which command it waits on, with the
/// calibration bytes read so far.
#[derive(Debug)]
pub enum InitPhase {
    ChipId,
    CalibTp,
    CalibH1 { tp: [u8; CALIB_TP_LEN] },
    CalibH2 { tp: [u8; CALIB_TP_LEN], h1: u8 },
    /// The configuration write number `step` (0, 1, 2) is under way.
    Configure { step: usize },
}

/// What initialisation does next.
#[derive(Debug)]
pub enum InitStep<E> {
    /// Perform `cmd` and hand its reply back with `phase`.
    Pending { phase: InitPhase, cmd: Command },
    /// Initialisation is over.
    Finished(Result<(), Error<E>>),
}

/// The configuration writes, in order: `config`, `ctrl_hum`, `ctrl_meas`.
pub open spec fn config_write(step: int) -> Command {
    if step == 0 {
        Command::Write { reg: REG_CONFIG, val: 0x00 }
    } else if step == 1 {
        Command::Write { reg: REG_CTRL_HUM, val: 0x01 }
    } else {
        Command::Write { reg: REG_CTRL_MEAS, val: 0x00 }
    }
}

/// The command that initialisation waits on in `phase`.
pub open spec fn init_command(phase: InitPhase) -> Command {
    match phase {
        InitPhase::ChipId => Command::Read { reg: REG_CHIP_ID, len: 1 },
        InitPhase::CalibTp => Command::Read { reg: REG_CALIB_TP, len: CALIB_TP_LEN },
        InitPhase::CalibH1 { .. } => Command::Read { reg: REG_CALIB_H1, len: 1 },
        InitPhase::CalibH2 { .. } => Command::Read { reg: REG_CALIB_H2, len: CALIB_H_LEN },
        InitPhase::Configure { step } => config_write(step as int),
    }
}

/// A phase that initialisation can be in.
pub open spec fn init_phase_wf(phase: InitPhase) -> bool {
    match phase {
        InitPhase::Configure { step } => step < CONFIG_WRITES,
        _ => true,
    }
}

/// Initialisation waits on `phase`, asking for its command.
pub open spec fn init_pending<E>(phase: InitPhase) -> InitStep<E> {
    InitStep::Pending { phase, cmd: init_command(phase) }
}

/// One step of initialisation: from the calibration held and the reply to
/// the command of `phase`, the calibration held afterwards and what comes
/// next.
pub open spec fn init_next<E>(calib: Option<CalibData>, phase: InitPhase, reply: Reply<E>) -> (
    Option<CalibData>,
    InitStep<E>,
) {
    match reply {
        Reply::Bus(e) => (calib, InitStep::Finished(Err(Error::I2c(e)))),
        Reply::Data(v) => match phase {
            InitPhase::ChipId => if v@[0] == CHIP_ID {
                (calib, init_pending(InitPhase::CalibTp))
            } else {
                (calib, InitStep::Finished(Err(Error::BadChipId(v@[0]))))
            },
            InitPhase::CalibTp => (calib, init_pending(InitPhase::CalibH1 { tp: block_tp(v) })),
            InitPhase::CalibH1 { tp } => (calib, init_pending(InitPhase::CalibH2 { tp, h1: v@[0] })),
            InitPhase::CalibH2 { tp, h1 } => (
                Some(decode(tp@, h1, block_h(v)@)),
                init_pending(InitPhase::Configure { step: 0 }),
            ),
            InitPhase::Configure { .. } => (calib, InitStep::Finished(Ok(()))),
        },
        Reply::Done => match phase {
            InitPhase::Configure { step } => if step + 1 < CONFIG_WRITES {
                (calib, init_pending(InitPhase::Configure { step: (step + 1) as usize }))
            } else {
                (calib, InitStep::Finished(Ok(())))
            },
            _ => (calib, InitStep::Finished(Ok(()))),
        },
    }
}

impl<I2C> Bme280<I2C> {
    /// Begins initialisation: the chip id is read first.
    pub fn start_init<E>(&self) -> (s: InitStep<E>)
        ensures
            s == init_pending::<E>(InitPhase::ChipId),
            s == (InitStep::<E>::Pending {
                phase: InitPhase::ChipId,
                cmd: Command::Read { reg: REG_CHIP_ID, len: 1 },
            }),
    {
        InitStep::Pending { phase: InitPhase::ChipId, cmd: Command::Read { reg: REG_CHIP_ID, len: 1 } }
    }

    /// Advances initialisation by the reply to the command of `phase`.
    pub fn step_init<E>(&mut self, phase: InitPhase, reply: Reply<E>) -> (s: InitStep<E>)
        requires
            init_phase_wf(phase),
            answers(init_command(phase), reply),
        ensures
            (final(self)@, s) == init_next(old(self)@, phase, reply),
            final(self).bus_spec() == old(self).bus_spec(),
            s matches InitStep::Pending { phase: p, .. } ==> init_phase_wf(p),
    {
        match reply {
            Reply::Bus(e) => InitStep::Finished(Err(Error::I2c(e))),
            Reply::Data(v) => match phase {
                InitPhase::ChipId => {
                    let id = v[0];
                    if id == CHIP_ID {
                        InitStep::Pending {
                            phase: InitPhase::CalibTp,
                            cmd: Command::Read { reg: REG_CALIB_TP, len: CALIB_TP_LEN },
                        }
                    } else {
                        InitStep::Finished(Err(Error::BadChipId(id)))
                    }
                },
                InitPhase::CalibTp => InitStep::Pending {
                    phase: InitPhase::CalibH1 { tp: take_tp(&v) },
                    cmd: Command::Read { reg: REG_CALIB_H1, len: 1 },
                },
                InitPhase::CalibH1 { tp } => {
                    let h1 = v[0];
                    InitStep::Pending {
                        phase: InitPhase::CalibH2 { tp, h1 },
                        cmd: Command::Read { reg: REG_CALIB_H2, len: CALIB_H_LEN },
                    }
                },
                InitPhase::CalibH2 { tp, h1 } => {
                    let c = CalibData::from_registers(&tp, h1, &take_h(&v));
                    self.set_calibration(c);
                    InitStep::Pending {
                        phase: InitPhase::Configure { step: 0 },
                        cmd: Command::Write { reg: REG_CONFIG, val: 0x00 },
                    }
                },
                InitPhase::Configure { .. } => InitStep::Finished(Ok(())),
            },
            Reply::Done => match phase {
                InitPhase::Configure { step } => {
                    if step + 1 < CONFIG_WRITES {
                        let next = step + 1;
                        let cmd = if next == 1 {
                            Command::Write { reg: REG_CTRL_HUM, val: 0x01 }
                        } else {
                            Command::Write { reg: REG_CTRL_MEAS, val: 0x00 }
                        };
                        InitStep::Pending { phase: InitPhase::Configure { step: next }, cmd }
                    } else {
                        InitStep::Finished(Ok(()))
                    }
                },
                _ => InitStep::Finished(Ok(())),
            },
        }
    }
}

// ---- Measurement ------------------------------------------------------------

/// Where a measurement stands, with the calibration it compensates with.
#[derive(Debug)]
pub enum ReadPhase {
    /// The write that starts a forced measurement is under way.
    Trigger { calib: CalibData },
    /// The status register is being read.
    Status { calib: CalibData },
    /// The pause between two polls is under way.
    Pause { calib: CalibData },
    /// The data registers are being read.
    Fetch { calib: CalibData },
}

/// What a measurement does next.
#[derive(Debug)]
pub enum ReadStep<E> {
    /// Perform `cmd` and hand its reply back with `phase`.
    Pending { phase: ReadPhase, cmd: Command },
    /// The measurement is over.
    Finished(Result<Reading, Error<E>>),
    /// The compensation arithmetic overflows on these data registers: plain
    /// machine arithmetic would trap here.
    Overflow,
}

/// The calibration a measurement in `phase` compensates with.
pub open spec fn read_calib(phase: ReadPhase) -> CalibData {
    match phase {
        ReadPhase::Trigger { calib } => calib,
        ReadPhase::Status { calib } => calib,
        ReadPhase::Pause { calib } => calib,
        ReadPhase::Fetch { calib } => calib,
    }
}

/// The command that a measurement waits on in `phase`.
pub open spec fn read_command(phase: ReadPhase) -> Command {
    match phase {
        ReadPhase::Trigger { .. } => Command::Write { reg: REG_CTRL_MEAS, val: CTRL_MEAS_FORCED },
        ReadPhase::Status { .. } => Command::Read { reg: REG_STATUS, len: 1 },
        ReadPhase::Pause { .. } => Command::Sleep { ms: POLL_INTERVAL_MS },
        ReadPhase::Fetch { .. } => Command::Read { reg: REG_DATA_START, len: DATA_LEN },
    }
}

/// A measurement waits on `phase`, asking for its command.
pub open spec fn read_pending<E>(phase: ReadPhase) -> ReadStep<E> {
    ReadStep::Pending { phase, cmd: read_command(phase) }
}

/// How a measurement begins for a driver holding `calib`.
pub open spec fn read_begin<E>(calib: Option<CalibData>) -> ReadStep<E> {
    match calib {
        None => ReadStep::Finished(Err(Error::NotInitialized)),
        Some(c) => read_pending(ReadPhase::Trigger { calib: c }),
    }
}

/// One step of a measurement: from the reply to the command of `phase`, what
/// comes next.
pub open spec fn read_next<E>(phase: ReadPhase, reply: Reply<E>) -> ReadStep<E> {
    let c = read_calib(phase);
    match reply {
        Reply::Bus(e) => ReadStep::Finished(Err(Error::I2c(e))),
        Reply::Done => read_pending(ReadPhase::Status { calib: c }),
        Reply::Data(v) => match phase {
            ReadPhase::Fetch { .. } => match reading_spec(c, block_data(v)@) {
                Some(r) => ReadStep::Finished(Ok(r)),
                None => ReadStep::Overflow,
            },
            _ => if v@[0] & STATUS_MEASURING == 0 {
                read_pending(ReadPhase::Fetch { calib: c })
            } else {
                read_pending(ReadPhase::Pause { calib: c })
            },
        },
    }
}

impl<I2C> Bme280<I2C> {
    /// Begins a measurement: `NotInitialized` without calibration data,
    /// otherwise the write that starts a forced measurement.
    pub fn start_read<E>(&self) -> (s: ReadStep<E>)
        ensures
            s == read_begin::<E>(self@),
            s matches ReadStep::Pending { phase, .. } ==> read_calib(phase).wf(),
    {
        match self.calibration() {
            None => ReadStep::Finished(Err(Error::NotInitialized)),
            Some(calib) => ReadStep::Pending {
                phase: ReadPhase::Trigger { calib },
                cmd: Command::Write { reg: REG_CTRL_MEAS, val: CTRL_MEAS_FORCED },
            },
        }
    }

    /// Advances a measurement by the reply to the command of `phase`.
    pub fn step_read<E>(phase: ReadPhase, reply: Reply<E>) -> (s: ReadStep<E>)
        requires
            read_calib(phase).wf(),
            answers(read_command(phase), reply),
        ensures
            s == read_next(phase, reply),
            s matches ReadStep::Pending { phase: p, .. } ==> read_calib(p).wf(),
            s matches ReadStep::Finished(Ok(r)) ==> r.humidity_pct <= 10000,
    {
        let calib = match phase {
            ReadPhase::Trigger { calib } => calib,
            ReadPhase::Status { calib } => calib,
            ReadPhase::Pause { calib } => calib,
            ReadPhase::Fetch { calib } => calib,
        };
        match reply {
            Reply::Bus(e) => ReadStep::Finished(Err(Error::I2c(e))),
            Reply::Done => ReadStep::Pending {
                phase: ReadPhase::Status { calib },
                cmd: Command::Read { reg: REG_STATUS, len: 1 },
            },
            Reply::Data(v) => match phase {
                ReadPhase::Fetch { .. } => match compute_reading(&calib, &take_data(&v)) {
                    Some(r) => ReadStep::Finished(Ok(r)),
                    None => ReadStep::Overflow,
                },
                _ => {
                    let status = v[0];
                    if status & STATUS_MEASURING == 0 {
                        ReadStep::Pending {
                            phase: ReadPhase::Fetch { calib },
                            cmd: Command::Read { reg: REG_DATA_START, len: DATA_LEN },
                        }
                    } else {
                        ReadStep::Pending {
                            phase: ReadPhase::Pause { calib },
                            cmd: Command::Sleep { ms: POLL_INTERVAL_MS },
                        }
                    }
                },
            },
        }
    }
}

// ---- Runs of the machines ----------------------------------------------------

/// Initialisation run from `step` over the replies `replies`, with `calib`
/// held at the start: the calibration held at the end and the last step.
/// Replies after the end are not looked at.
pub open spec fn init_run<E>(calib: Option<CalibData>, step: InitStep<E>, replies: Seq<Reply<E>>) -> (
    Option<CalibData>,
    InitStep<E>,
)
    decreases replies.len(),
{
    if replies.len() == 0 {
        (calib, step)
    } else {
        match step {
            InitStep::Pending { phase, .. } => {
                let (c2, s2) = init_next(calib, phase, replies[0]);
                init_run(c2, s2, replies.drop_first())
            },
            InitStep::Finished(_) => (calib, step),
        }
    }
}

/// The commands that an initialisation run from `step` over `replies` asks
/// for, in order.
pub open spec fn init_trace<E>(calib: Option<CalibData>, step: InitStep<E>, replies: Seq<Reply<E>>) -> Seq<
    Command,
>
    decreases replies.len(),
{
    match step {
        InitStep::Pending { phase, cmd } => if replies.len() == 0 {
            seq![cmd]
        } else {
            let (c2, s2) = init_next(calib, phase, replies[0]);
            seq![cmd] + init_trace(c2, s2, replies.drop_first())
        },
        InitStep::Finished(_) => Seq::empty(),
    }
}

/// Measurement run from `step` over the replies `replies`: the last step.
pub open spec fn read_run<E>(step: ReadStep<E>, replies: Seq<Reply<E>>) -> ReadStep<E>
    decreases replies.len(),
{
    if replies.len() == 0 {
        step
    } else {
        match step {
            ReadStep::Pending { phase, .. } => read_run(
                read_next(phase, replies[0]),
                replies.drop_first(),
            ),
            _ => step,
        }
    }
}

/// The commands that a measurement run from `step` over `replies` asks for,
/// in order.
pub open spec fn read_trace<E>(step: ReadStep<E>, replies: Seq<Reply<E>>) -> Seq<Command>
    decreases replies.len(),
{
    match step {
        ReadStep::Pending { phase, cmd } => if replies.len() == 0 {
            seq![cmd]
        } else {
            seq![cmd] + read_trace(read_next(phase, replies[0]), replies.drop_first())
        },
        _ => Seq::empty(),
    }
}

/// The register transfers of a successful initialisation, in order.
pub open spec fn init_transfers() -> Seq<Command> {
    seq![
        Command::Read { reg: 0xd0, len: 1 },
        Command::Read { reg: 0x88, len: 24 },
        Command::Read { reg: 0xa1, len: 1 },
        Command::Read { reg: 0xe1, len: 7 },
        Command::Write { reg: 0xf5, val: 0x00 },
        Command::Write { reg: 0xf2, val: 0x01 },
        Command::Write { reg: 0xf4, val: 0x00 },
    ]
}

/// Initialisation that meets a BME280 and whose transfers all succeed reads
/// the chip id, the three calibration blocks, then writes `config`,
/// `ctrl_hum` and `ctrl_meas` in that order; it succeeds and leaves the
/// driver holding the parameters that the calibration blocks encode.
pub proof fn lemma_init_succeeds<E>(
    calib: Option<CalibData>,
    id: [u8; MAX_READ_LEN],
    tp: [u8; MAX_READ_LEN],
    h1: [u8; MAX_READ_LEN],
    h: [u8; MAX_READ_LEN],
)
    requires
        id@[0] == 0x60,
    ensures
        ({
            let replies = seq![
                Reply::<E>::Data(id),
                Reply::Data(tp),
                Reply::Data(h1),
                Reply::Data(h),
                Reply::Done,
                Reply::Done,
                Reply::Done,
            ];
            &&& init_run(calib, init_pending::<E>(InitPhase::ChipId), replies) == (
                Some(decode(tp@, h1@[0], block_h(h)@)),
                InitStep::<E>::Finished(Ok(())),
            )
            &&& init_trace(calib, init_pending::<E>(InitPhase::ChipId), replies) == init_transfers()
        }),
{
    let replies = seq![
        Reply::<E>::Data(id),
        Reply::Data(tp),
        Reply::Data(h1),
        Reply::Data(h),
        Reply::Done,
        Reply::Done,
        Reply::Done,
    ];
    let c = Some(decode(tp@, h1@[0], block_h(h)@));
    let s0 = init_pending::<E>(InitPhase::ChipId);
    let s1 = init_pending::<E>(InitPhase::CalibTp);
    let s2 = init_pending::<E>(InitPhase::CalibH1 { tp });
    let s3 = init_pending::<E>(InitPhase::CalibH2 { tp, h1: h1@[0] });
    let s4 = init_pending::<E>(InitPhase::Configure { step: 0 });
    let s5 = init_pending::<E>(InitPhase::Configure { step: 1 });
    let s6 = init_pending::<E>(InitPhase::Configure { step: 2 });
    let done = InitStep::<E>::Finished(Ok(()));
    let r1 = replies.drop_first();
    let r2 = r1.drop_first();
    let r3 = r2.drop_first();
    let r4 = r3.drop_first();
    let r5 = r4.drop_first();
    let r6 = r5.drop_first();
    let r7 = r6.drop_first();
    assert(r7.len() == 0);
    assert(init_run(c, done, r7) == (c, done));
    assert(init_run(c, s6, r6) == (c, done));
    assert(init_run(c, s5, r5) == (c, done));
    assert(init_run(c, s4, r4) == (c, done));
    assert(init_run(calib, s3, r3) == (c, done));
    assert(init_run(calib, s2, r2) == (c, done));
    assert(init_run(calib, s1, r1) == (c, done));
    assert(init_trace(c, done, r7) == Seq::<Command>::empty());
    assert(init_trace(c, s6, r6) == seq![init_command(InitPhase::Configure { step: 2 })]);
    assert(init_trace(c, s5, r5) == seq![init_command(InitPhase::Configure { step: 1 })]
        + init_trace(c, s6, r6));
    assert(init_trace(c, s4, r4) == seq![init_command(InitPhase::Configure { step: 0 })]
        + init_trace(c, s5, r5));
    assert(init_trace(calib, s3, r3) == seq![init_command(InitPhase::CalibH2 { tp, h1: h1@[0] })]
        + init_trace(c, s4, r4));
    assert(init_trace(calib, s2, r2) == seq![init_command(InitPhase::CalibH1 { tp })]
        + init_trace(calib, s3, r3));
    assert(init_trace(calib, s1, r1) == seq![init_command(InitPhase::CalibTp)] + init_trace(
        calib,
        s2,
        r2,
    ));
    assert(init_trace(calib, s0, replies) == seq![init_command(InitPhase::ChipId)] + init_trace(
        calib,
        s1,
        r1,
    ));
    assert(init_trace(calib, s0, replies) =~= init_transfers());
}

/// Initialisation that finds another chip id gives up with `BadChipId`
/// carrying that id, after the one read of the chip id, and leaves the
/// calibration held as it was.
pub proof fn lemma_init_rejects_other_chip<E>(
    calib: Option<CalibData>,
    id: [u8; MAX_READ_LEN],
    rest: Seq<Reply<E>>,
)
    requires
        id@[0] != 0x60,
    ensures
        init_run(calib, init_pending::<E>(InitPhase::ChipId), seq![Reply::Data(id)] + rest) == (
            calib,
            InitStep::<E>::Finished(Err(Error::BadChipId(id@[0]))),
        ),
        init_trace(calib, init_pending::<E>(InitPhase::ChipId), seq![Reply::Data(id)] + rest)
            == seq![Command::Read { reg: 0xd0, len: 1 }],
{
    let replies = seq![Reply::Data(id)] + rest;
    let fail = InitStep::<E>::Finished(Err(Error::BadChipId(id@[0])));
    assert(replies[0] == Reply::<E>::Data(id));
    assert(init_run(calib, fail, replies.drop_first()) == (calib, fail));
    assert(init_trace(calib, fail, replies.drop_first()) == Seq::<Command>::empty());
    assert(init_trace(calib, init_pending::<E>(InitPhase::ChipId), replies) =~= seq![
        Command::Read { reg: 0xd0, len: 1 },
    ]);
}

/// A failed bus transfer ends initialisation and measurement alike with
/// `Error::I2c` carrying the bus error; initialisation keeps the
/// calibration held as it was.
pub proof fn lemma_bus_failure_ends_operation<E>(
    calib: Option<CalibData>,
    init_phase: InitPhase,
    read_phase: ReadPhase,
    e: E,
)
    ensures
        init_next(calib, init_phase, Reply::Bus(e)) == (
            calib,
            InitStep::<E>::Finished(Err(Error::I2c(e))),
        ),
        read_next(read_phase, Reply::Bus(e)) == ReadStep::<E>::Finished(Err(Error::I2c(e))),
{
}

/// A measurement asked of a driver without calibration data fails with
/// `NotInitialized` and touches the bus not at all.
pub proof fn lemma_read_before_init<E>(replies: Seq<Reply<E>>)
    ensures
        read_run(read_begin::<E>(None), replies) == ReadStep::<E>::Finished(
            Err(Error::NotInitialized),
        ),
        read_trace(read_begin::<E>(None), replies) == Seq::<Command>::empty(),
{
    if replies.len() > 0 {
        assert(read_run(read_begin::<E>(None), replies) == read_begin::<E>(None));
    }
}

/// How a measurement ends on the data registers `buf` compensated with
/// `calib`: the reading, or `Overflow` where the arithmetic overflows.
pub open spec fn read_outcome<E>(calib: CalibData, buf: Seq<u8>) -> ReadStep<E> {
    match reading_spec(calib, buf) {
        Some(r) => ReadStep::Finished(Ok(r)),
        None => ReadStep::Overflow,
    }
}

/// The register transfers of a measurement whose first status read finds
/// the conversion done.
pub open spec fn read_transfers() -> Seq<Command> {
    seq![
        Command::Write { reg: 0xf4, val: 0x25 },
        Command::Read { reg: 0xf3, len: 1 },
        Command::Read { reg: 0xf7, len: 8 },
    ]
}

/// A measurement whose transfers succeed and whose status read finds the
/// conversion done writes `ctrl_meas` = 0x25, reads `status`, reads the 8
/// data registers, and ends with their compensation.
pub proof fn lemma_read_succeeds<E>(calib: CalibData, status: [u8; MAX_READ_LEN], buf: [u8; MAX_READ_LEN])
    requires
        status@[0] & 0x08u8 == 0,
    ensures
        ({
            let replies = seq![Reply::<E>::Done, Reply::Data(status), Reply::Data(buf)];
            &&& read_run(read_begin::<E>(Some(calib)), replies) == match reading_spec(
                calib,
                block_data(buf)@,
            ) {
                Some(r) => ReadStep::<E>::Finished(Ok(r)),
                None => ReadStep::<E>::Overflow,
            }
            &&& read_trace(read_begin::<E>(Some(calib)), replies) == read_transfers()
        }),
{
    let replies = seq![Reply::<E>::Done, Reply::Data(status), Reply::Data(buf)];
    let s0 = read_begin::<E>(Some(calib));
    let s1 = read_pending::<E>(ReadPhase::Status { calib });
    let s2 = read_pending::<E>(ReadPhase::Fetch { calib });
    let s3 = read_outcome::<E>(calib, block_data(buf)@);
    let r1 = replies.drop_first();
    let r2 = r1.drop_first();
    let r3 = r2.drop_first();
    assert(r3.len() == 0);
    assert(r2[0] == Reply::<E>::Data(buf));
    assert(read_next(ReadPhase::Fetch { calib }, Reply::<E>::Data(buf)) == s3);
    assert(read_run(s3, r3) == s3);
    assert(read_run(s2, r2) == s3);
    assert(read_run(s1, r1) == s3);
    assert(read_trace(s3, r3) == Seq::<Command>::empty());
    assert(read_trace(s2, r2) == seq![Command::Read { reg: 0xf7, len: 8 }]);
    assert(read_trace(s1, r1) == seq![Command::Read { reg: 0xf3, len: 1 }] + read_trace(
        s2,
        r2,
    ));
    assert(read_trace(s0, replies) == seq![
        Command::Write { reg: 0xf4, val: 0x25 },
    ] + read_trace(s1, r1));
    assert(read_trace(s0, replies) =~= read_transfers());
}

/// Rounds of a status read that yields each of `statuses` in turn, each
/// followed by the pause.
pub open spec fn busy_polls<E>(statuses: Seq<[u8; MAX_READ_LEN]>) -> Seq<Reply<E>>
    decreases statuses.len(),
{
    if statuses.len() == 0 {
        Seq::empty()
    } else {
        seq![Reply::Data(statuses[0]), Reply::Done] + busy_polls(statuses.drop_first())
    }
}

/// The transfers of `k` such rounds: a status read, then a 10 ms pause.
pub open spec fn poll_transfers(k: nat) -> Seq<Command>
    decreases k,
{
    if k == 0 {
        Seq::empty()
    } else {
        seq![Command::Read { reg: 0xf3, len: 1 }, Command::Sleep { ms: 10 }]
            + poll_transfers((k - 1) as nat)
    }
}

/// While the status register reports a conversion running, a measurement
/// pauses 10 ms and reads the status again, and nothing else: after any
/// sequence of status reads that all find bit 3 set, it goes on exactly as
/// from its first status read.
pub proof fn lemma_read_polls_while_measuring<E>(
    calib: CalibData,
    statuses: Seq<[u8; MAX_READ_LEN]>,
    rest: Seq<Reply<E>>,
)
    requires
        forall|i: int|
            0 <= i < statuses.len() ==> #[trigger] statuses[i]@[0] & 0x08u8 != 0,
    ensures
        read_run(read_pending::<E>(ReadPhase::Status { calib }), busy_polls(statuses) + rest)
            == read_run(read_pending::<E>(ReadPhase::Status { calib }), rest),
        read_trace(read_pending::<E>(ReadPhase::Status { calib }), busy_polls(statuses) + rest)
            == poll_transfers(statuses.len()) + read_trace(
            read_pending::<E>(ReadPhase::Status { calib }),
            rest,
        ),
    decreases statuses.len(),
{
    let st = read_pending::<E>(ReadPhase::Status { calib });
    if statuses.len() == 0 {
        assert(busy_polls::<E>(statuses) + rest =~= rest);
        assert(poll_transfers(0) + read_trace(st, rest) =~= read_trace(st, rest));
    } else {
        let busy = statuses[0];
        let more = statuses.drop_first();
        assert forall|i: int| 0 <= i < more.len() implies #[trigger] more[i]@[0]
            & 0x08u8 != 0 by {
            assert(more[i] == statuses[i + 1]);
        }
        lemma_read_polls_while_measuring(calib, more, rest);
        assert(busy@[0] & 0x08u8 != 0);
        let tail = busy_polls::<E>(more) + rest;
        let all = busy_polls::<E>(statuses) + rest;
        let pause = read_pending::<E>(ReadPhase::Pause { calib });
        assert(all =~= seq![Reply::Data(busy), Reply::Done] + tail);
        assert(all[0] == Reply::<E>::Data(busy));
        assert(all.drop_first()[0] == Reply::<E>::Done);
        assert(all.drop_first().drop_first() =~= tail);
        assert(read_next(ReadPhase::Status { calib }, Reply::<E>::Data(busy)) == pause);
        assert(read_next(ReadPhase::Pause { calib }, Reply::<E>::Done) == st);
        assert(read_run(st, all) == read_run(pause, all.drop_first()));
        assert(read_run(pause, all.drop_first()) == read_run(st, tail));
        assert(read_trace(pause, all.drop_first()) == seq![Command::Sleep { ms: 10 }]
            + read_trace(st, tail));
        assert(read_trace(st, all) == seq![Command::Read { reg: 0xf3, len: 1 }]
            + read_trace(pause, all.drop_first()));
        assert(read_trace(st, all) =~= poll_transfers(statuses.len()) + read_trace(st, rest));
    }
}

/// After an initialisation that succeeds, a measurement compensates its data
/// registers with the parameters that initialisation read from the sensor.
pub proof fn lemma_read_uses_initialised_calibration<E>(
    calib: Option<CalibData>,
    id: [u8; MAX_READ_LEN],
    tp: [u8; MAX_READ_LEN],
    h1: [u8; MAX_READ_LEN],
    h: [u8; MAX_READ_LEN],
    status: [u8; MAX_READ_LEN],
    buf: [u8; MAX_READ_LEN],
)
    requires
        id@[0] == 0x60,
        status@[0] & 0x08u8 == 0,
    ensures
        ({
            let init_replies = seq![
                Reply::<E>::Data(id),
                Reply::Data(tp),
                Reply::Data(h1),
                Reply::Data(h),
                Reply::Done,
                Reply::Done,
                Reply::Done,
            ];
            let held = init_run(calib, init_pending::<E>(InitPhase::ChipId), init_replies).0;
            read_run(
                read_begin::<E>(held),
                seq![Reply::<E>::Done, Reply::Data(status), Reply::Data(buf)],
            ) == match reading_spec(decode(tp@, h1@[0], block_h(h)@), block_data(buf)@) {
                Some(r) => ReadStep::<E>::Finished(Ok(r)),
                None => ReadStep::<E>::Overflow,
            }
        }),
{
    lemma_init_succeeds::<E>(calib, id, tp, h1, h);
    lemma_read_succeeds::<E>(decode(tp@, h1@[0], block_h(h)@), status, buf);
}

/// The calibration and data blocks are taken from the start of a reply, in
/// the order the registers were read.
pub proof fn lemma_blocks_are_reply_prefixes(v: [u8; MAX_READ_LEN])
    ensures
        block_tp(v)@ == v@,
        block_h(v)@ == v@.subrange(0, 7),
        block_data(v)@ == v@.subrange(0, 8),
{
    assert(block_h(v)@ =~= v@.subrange(0, 7));
    assert(block_data(v)@ =~= v@.subrange(0, 8));
}

} // verus!
