//! Control-plane driver for the board's WM8994 codec.
//!
//! I2C only configures the codec. PCM samples are delivered separately over
//! SAI1 with DMA; callers should keep the output muted until that stream is
//! clocked and contains valid samples.
use vstd::prelude::*;

verus! {

/// The 7-bit form of the WM8994's `0x34` write address.
pub const I2C_ADDRESS: u8 = 0x1a;

pub const DEVICE_ID: u16 = 0x8994;

pub const SW_RESET: u16 = 0x0000;
pub const POWER_MANAGEMENT_1: u16 = 0x0001;
pub const POWER_MANAGEMENT_5: u16 = 0x0005;
pub const LEFT_OUTPUT_VOLUME: u16 = 0x001c;
pub const RIGHT_OUTPUT_VOLUME: u16 = 0x001d;
pub const OUTPUT_MIXER_1: u16 = 0x002d;
pub const OUTPUT_MIXER_2: u16 = 0x002e;
pub const ANTI_POP_2: u16 = 0x0039;
pub const WRITE_SEQUENCER_CONTROL_1: u16 = 0x0110;
pub const AIF1_CLOCKING_1: u16 = 0x0200;
pub const CLOCKING_1: u16 = 0x0208;
pub const AIF1_RATE: u16 = 0x0210;
pub const AIF1_CONTROL_1: u16 = 0x0300;
pub const AIF1_MASTER_SLAVE: u16 = 0x0302;
pub const AIF1_DAC1_FILTER_1: u16 = 0x0420;
pub const AIF1_DAC2_FILTER_1: u16 = 0x0422;
pub const AIF1_DAC1_LEFT_MIXER_ROUTING: u16 = 0x0601;
pub const AIF1_DAC1_RIGHT_MIXER_ROUTING: u16 = 0x0602;
pub const AIF1_DAC2_LEFT_MIXER_ROUTING: u16 = 0x0604;
pub const AIF1_DAC2_RIGHT_MIXER_ROUTING: u16 = 0x0605;
pub const DAC1_LEFT_VOLUME: u16 = 0x0610;
pub const DAC1_RIGHT_VOLUME: u16 = 0x0611;
pub const DAC2_LEFT_VOLUME: u16 = 0x0612;
pub const DAC2_RIGHT_VOLUME: u16 = 0x0613;

/// The I2C bus the codec sits on, as the driver uses it.
pub trait CodecBus {
    type Error;

    /// Writes the four bytes of a register write to the device at `address`.
    fn write(&mut self, address: u8, bytes: &[u8; 4]) -> Result<(), Self::Error>;

    /// Writes a two-byte register address, then reads two bytes back.
    fn write_read(&mut self, address: u8, bytes: &[u8; 2], output: &mut [u8; 2]) -> Result<
        (),
        Self::Error,
    >;
}

/// Millisecond waits between configuration steps.
pub trait Delay {
    fn delay_ms(&mut self, ms: u32);
}

#[derive(Debug, Clone, Copy, PartialEq, Eq)]
pub enum Error<E> {
    Bus(E),
    UnexpectedDevice(u16),
}

/// One step of a configuration sequence.
#[derive(Debug, Clone, Copy, PartialEq, Eq, Structural)]
pub enum CodecStep {
    Write { register: u16, value: u16 },
    DelayMs(u32),
}

/// The bytes of a 16-bit value, most significant first.
pub open spec fn be_bytes(value: u16) -> Seq<u8> {
    seq![(value / 256) as u8, (value % 256) as u8]
}

/// The bus bytes of a register write: register then value, each most
/// significant byte first.
pub open spec fn spec_register_frame(register: u16, value: u16) -> Seq<u8> {
    be_bytes(register) + be_bytes(value)
}

/// The register value of two bytes read most significant first.
pub open spec fn value_of_be_bytes(high: u8, low: u8) -> u16 {
    (high * 256 + low) as u16
}

/// The headphone PGA register value for a volume on a linear 0–100 scale;
/// volumes above 100 count as 100.
pub open spec fn spec_output_volume_value(percent: u8) -> u16 {
    let p = if percent > 100 {
        100int
    } else {
        percent as int
    };
    (0x0140 + (p * 63 + 50) / 100) as u16
}

/// The AIF1 DAC filter value that mutes or unmutes the output.
pub open spec fn spec_mute_value(muted: bool) -> u16 {
    if muted {
        0x0200
    } else {
        0x0010
    }
}

/// The AIF1 DAC filter's soft-mute bit (bit 9) is set exactly when the
/// output is to be muted, so muting and unmuting write different values and
/// an unmuted DAC is never left with its mute bit set.
pub proof fn lemma_mute_bit_follows_muted(muted: bool)
    ensures
        (spec_mute_value(muted) & 0x0200u16 != 0) == muted,
        spec_mute_value(true) != spec_mute_value(false),
{
    assert(0x0200u16 & 0x0200u16 != 0) by (bit_vector);
    assert(0x0010u16 & 0x0200u16 == 0) by (bit_vector);
}

/// What `configure_headphone_playback` does after the reset and device
/// check: errata workarounds, power-up, the AIF1 DAC1 → headphone routing,
/// 48 kHz 16-bit I2S as clock slave, the DAC volumes, the output volume, and
/// finally muting.
pub open spec fn spec_headphone_playback_steps(volume_percent: u8) -> Seq<CodecStep> {
    seq![
        CodecStep::Write { register: 0x0102, value: 0x0003 },
        CodecStep::Write { register: 0x0817, value: 0x0000 },
        CodecStep::Write { register: 0x0102, value: 0x0000 },
        CodecStep::Write { register: ANTI_POP_2, value: 0x006c },
        CodecStep::Write { register: POWER_MANAGEMENT_1, value: 0x0003 },
        CodecStep::DelayMs(50),
        CodecStep::Write { register: POWER_MANAGEMENT_5, value: 0x0303 },
        CodecStep::Write { register: AIF1_DAC1_LEFT_MIXER_ROUTING, value: 0x0001 },
        CodecStep::Write { register: AIF1_DAC1_RIGHT_MIXER_ROUTING, value: 0x0001 },
        CodecStep::Write { register: AIF1_DAC2_LEFT_MIXER_ROUTING, value: 0x0000 },
        CodecStep::Write { register: AIF1_DAC2_RIGHT_MIXER_ROUTING, value: 0x0000 },
        CodecStep::Write { register: AIF1_RATE, value: 0x0083 },
        CodecStep::Write { register: AIF1_CONTROL_1, value: 0x4010 },
        CodecStep::Write { register: AIF1_MASTER_SLAVE, value: 0x0000 },
        CodecStep::Write { register: CLOCKING_1, value: 0x000a },
        CodecStep::Write { register: AIF1_CLOCKING_1, value: 0x0001 },
        CodecStep::Write { register: OUTPUT_MIXER_1, value: 0x0100 },
        CodecStep::Write { register: OUTPUT_MIXER_2, value: 0x0100 },
        CodecStep::Write { register: WRITE_SEQUENCER_CONTROL_1, value: 0x8100 },
        CodecStep::DelayMs(325),
        CodecStep::Write { register: DAC1_LEFT_VOLUME, value: 0x00c0 },
        CodecStep::Write { register: DAC1_RIGHT_VOLUME, value: 0x00c0 },
        CodecStep::Write { register: DAC2_LEFT_VOLUME, value: 0x00c0 },
        CodecStep::Write { register: DAC2_RIGHT_VOLUME, value: 0x00c0 },
        CodecStep::Write {
            register: LEFT_OUTPUT_VOLUME,
            value: spec_output_volume_value(volume_percent),
        },
        CodecStep::Write {
            register: RIGHT_OUTPUT_VOLUME,
            value: spec_output_volume_value(volume_percent),
        },
        CodecStep::Write { register: AIF1_DAC1_FILTER_1, value: spec_mute_value(true) },
        CodecStep::Write { register: AIF1_DAC2_FILTER_1, value: spec_mute_value(true) },
    ]
}

/// Accepts the WM8994's device ID and reports any other ID read back.
pub fn check_device_id<E>(id: u16) -> (r: Result<(), Error<E>>)
    ensures
        id == DEVICE_ID ==> r is Ok,
        id != DEVICE_ID ==> r == Err::<(), Error<E>>(Error::UnexpectedDevice(id)),
{
    if id == DEVICE_ID {
        Ok(())
    } else {
        Err(Error::UnexpectedDevice(id))
    }
}

/// The bus bytes of a register write, most significant byte first.
pub fn register_frame(register: u16, value: u16) -> (r: [u8; 4])
    ensures
        r@ == spec_register_frame(register, value),
{
    let r = [(register / 256) as u8, (register % 256) as u8, (value / 256) as u8, (value % 256) as u8];
    assert(r@ =~= spec_register_frame(register, value));
    r
}

/// The register value of two bytes read most significant first.
pub fn register_value(bytes: [u8; 2]) -> (r: u16)
    ensures
        r == value_of_be_bytes(bytes@[0], bytes@[1]),
        r == bytes@[0] * 256 + bytes@[1],
{
    let high = bytes[0] as u16;
    let low = bytes[1] as u16;
    high * 256 + low
}

/// The headphone PGA register value for a volume on a linear 0–100 scale.
pub fn output_volume_value(percent: u8) -> (r: u16)
    ensures
        r == spec_output_volume_value(percent),
        0x0140 <= r <= 0x0140 + 63,
{
    let percent: u16 = if percent > 100 {
        100
    } else {
        percent as u16
    };
    let level = (percent * 63 + 50) / 100;
    assert(level <= 63);
    assert(0x0140u16 | level == 0x0140u16 + level) by (bit_vector)
        requires
            level <= 63,
    ;
    0x0140 | level
}

/// The AIF1 DAC filter value that mutes or unmutes the output.
pub fn mute_value(muted: bool) -> (r: u16)
    ensures
        r == spec_mute_value(muted),
{
    if muted {
        0x0200
    } else {
        0x0010
    }
}

/// The configuration steps that follow the reset and device check.
pub fn headphone_playback_steps(volume_percent: u8) -> (r: Vec<CodecStep>)
    ensures
        r@ == spec_headphone_playback_steps(volume_percent),
{
    let volume = output_volume_value(volume_percent);
    let muted = mute_value(true);
    let r = vec![
        CodecStep::Write { register: 0x0102, value: 0x0003 },
        CodecStep::Write { register: 0x0817, value: 0x0000 },
        CodecStep::Write { register: 0x0102, value: 0x0000 },
        CodecStep::Write { register: ANTI_POP_2, value: 0x006c },
        CodecStep::Write { register: POWER_MANAGEMENT_1, value: 0x0003 },
        CodecStep::DelayMs(50),
        CodecStep::Write { register: POWER_MANAGEMENT_5, value: 0x0303 },
        CodecStep::Write { register: AIF1_DAC1_LEFT_MIXER_ROUTING, value: 0x0001 },
        CodecStep::Write { register: AIF1_DAC1_RIGHT_MIXER_ROUTING, value: 0x0001 },
        CodecStep::Write { register: AIF1_DAC2_LEFT_MIXER_ROUTING, value: 0x0000 },
        CodecStep::Write { register: AIF1_DAC2_RIGHT_MIXER_ROUTING, value: 0x0000 },
        CodecStep::Write { register: AIF1_RATE, value: 0x0083 },
        CodecStep::Write { register: AIF1_CONTROL_1, value: 0x4010 },
        CodecStep::Write { register: AIF1_MASTER_SLAVE, value: 0x0000 },
        CodecStep::Write { register: CLOCKING_1, value: 0x000a },
        CodecStep::Write { register: AIF1_CLOCKING_1, value: 0x0001 },
        CodecStep::Write { register: OUTPUT_MIXER_1, value: 0x0100 },
        CodecStep::Write { register: OUTPUT_MIXER_2, value: 0x0100 },
        CodecStep::Write { register: WRITE_SEQUENCER_CONTROL_1, value: 0x8100 },
        CodecStep::DelayMs(325),
        CodecStep::Write { register: DAC1_LEFT_VOLUME, value: 0x00c0 },
        CodecStep::Write { register: DAC1_RIGHT_VOLUME, value: 0x00c0 },
        CodecStep::Write { register: DAC2_LEFT_VOLUME, value: 0x00c0 },
        CodecStep::Write { register: DAC2_RIGHT_VOLUME, value: 0x00c0 },
        CodecStep::Write { register: LEFT_OUTPUT_VOLUME, value: volume },
        CodecStep::Write { register: RIGHT_OUTPUT_VOLUME, value: volume },
        CodecStep::Write { register: AIF1_DAC1_FILTER_1, value: muted },
        CodecStep::Write { register: AIF1_DAC2_FILTER_1, value: muted },
    ];
    assert(r@ =~= spec_headphone_playback_steps(volume_percent));
    r
}

/// The volume scale is monotone: a louder setting never gives a lower PGA
/// level, 0 is the lowest level and 100 (or more) the highest.
pub proof fn lemma_output_volume_monotone(a: u8, b: u8)
    requires
        a <= b,
    ensures
        spec_output_volume_value(a) <= spec_output_volume_value(b),
        spec_output_volume_value(0) == 0x0140,
        spec_output_volume_value(100) == 0x0140 + 63,
        b >= 100 ==> spec_output_volume_value(b) == spec_output_volume_value(100),
{
    let pa: int = if a > 100 { 100 } else { a as int };
    let pb: int = if b > 100 { 100 } else { b as int };
    assert((pa * 63 + 50) / 100 <= (pb * 63 + 50) / 100) by (nonlinear_arith)
        requires
            0 <= pa <= pb,
    ;
}

/// Writing a register and reading it back use the same register bytes, and a
/// value read back in the written byte order is the value written.
pub proof fn lemma_frame_round_trip(register: u16, value: u16)
    ensures
        spec_register_frame(register, value).subrange(0, 2) == be_bytes(register),
        value_of_be_bytes(spec_register_frame(register, value)[2], spec_register_frame(register, value)[3])
            == value,
{
    assert(spec_register_frame(register, value).subrange(0, 2) =~= be_bytes(register));
}

/// An operation the driver hands to the I2C bus or to the delay.
pub enum CodecOp {
    /// A write of `bytes` to the device at `address`.
    Write { address: u8, bytes: Seq<u8> },
    /// A write of `bytes` to the device at `address` followed by a read.
    WriteRead { address: u8, bytes: Seq<u8> },
    /// A wait of this many milliseconds.
    DelayMs(u32),
}

/// The bus operation of a register write.
pub open spec fn write_op(register: u16, value: u16) -> CodecOp {
    CodecOp::Write { address: I2C_ADDRESS, bytes: spec_register_frame(register, value) }
}

/// The bus operation of a register read.
pub open spec fn read_op(register: u16) -> CodecOp {
    CodecOp::WriteRead { address: I2C_ADDRESS, bytes: be_bytes(register) }
}

/// The operation that performs one configuration step.
pub open spec fn step_op(step: CodecStep) -> CodecOp {
    match step {
        CodecStep::Write { register, value } => write_op(register, value),
        CodecStep::DelayMs(ms) => CodecOp::DelayMs(ms),
    }
}

/// The operations that perform a sequence of configuration steps.
pub open spec fn steps_ops(steps: Seq<CodecStep>) -> Seq<CodecOp> {
    steps.map_values(|step: CodecStep| step_op(step))
}

/// Reset, a 5 ms wait, and the read of the device ID.
pub open spec fn reset_and_verify_ops() -> Seq<CodecOp> {
    seq![write_op(SW_RESET, 0), CodecOp::DelayMs(5), read_op(SW_RESET)]
}

/// Everything `configure_headphone_playback` hands to the bus and the delay.
pub open spec fn headphone_playback_ops(volume_percent: u8) -> Seq<CodecOp> {
    reset_and_verify_ops() + steps_ops(spec_headphone_playback_steps(volume_percent))
}

/// The writes of an output volume to both output volume registers.
pub open spec fn output_volume_ops(percent: u8) -> Seq<CodecOp> {
    seq![
        write_op(LEFT_OUTPUT_VOLUME, spec_output_volume_value(percent)),
        write_op(RIGHT_OUTPUT_VOLUME, spec_output_volume_value(percent)),
    ]
}

/// The writes of the mute state to both AIF1 DAC filters.
pub open spec fn mute_ops(muted: bool) -> Seq<CodecOp> {
    seq![
        write_op(AIF1_DAC1_FILTER_1, spec_mute_value(muted)),
        write_op(AIF1_DAC2_FILTER_1, spec_mute_value(muted)),
    ]
}

/// Muting, clearing the output mixers and power management 5, and the reset.
pub open spec fn power_down_ops() -> Seq<CodecOp> {
    mute_ops(true) + seq![
        write_op(OUTPUT_MIXER_1, 0),
        write_op(OUTPUT_MIXER_2, 0),
        write_op(POWER_MANAGEMENT_5, 0),
        write_op(SW_RESET, 0),
    ]
}

/// `after` is `before` followed by the first `k` operations of `ops`, for
/// some `k` from 1 up to all of them: what a sequence that stopped at a
/// failed operation leaves.
pub open spec fn issued_prefix(after: Seq<CodecOp>, before: Seq<CodecOp>, ops: Seq<CodecOp>) -> bool {
    exists|k: int| 1 <= k <= ops.len() && after == before + #[trigger] ops.take(k)
}

/// Playback configuration leaves the output muted: its last two operations
/// mute both AIF1 DAC filters, and the volume it sets is the one asked for.
pub proof fn lemma_playback_configuration_ends_muted(volume_percent: u8)
    ensures
        ({
            let ops = headphone_playback_ops(volume_percent);
            &&& ops.len() == 31
            &&& ops.subrange(27, 29) == output_volume_ops(volume_percent)
            &&& ops.subrange(29, 31) == mute_ops(true)
        }),
{
    let ops = headphone_playback_ops(volume_percent);
    assert(ops.subrange(27, 29) =~= output_volume_ops(volume_percent));
    assert(ops.subrange(29, 31) =~= mute_ops(true));
}

/// What the bus or the delay answered to an operation.
pub enum BusAnswer {
    /// The write or the wait was done.
    Done,
    /// The bus reported an error.
    Failed,
    /// The read gave back these bytes.
    Read(Seq<u8>),
}

/// `after` is `before` followed by answers none of which is a failure.
pub open spec fn all_succeeded_after(after: Seq<BusAnswer>, before: Seq<BusAnswer>) -> bool {
    &&& before.len() <= after.len()
    &&& after.take(before.len() as int) == before
    &&& forall|i: int| before.len() <= i < after.len() ==> !(#[trigger] after[i] is Failed)
}

/// `after` is `before` followed by answers that succeeded up to the last,
/// which is a failure: what a sequence that stops at its first failed
/// operation leaves.
pub open spec fn failed_last_after(after: Seq<BusAnswer>, before: Seq<BusAnswer>) -> bool {
    &&& before.len() < after.len()
    &&& after.take(before.len() as int) == before
    &&& after.last() is Failed
    &&& forall|i: int| before.len() <= i < after.len() - 1 ==> !(#[trigger] after[i] is Failed)
}

/// Reading two bytes as a value and writing the value back as bytes gives
/// the two bytes.
pub proof fn lemma_be_bytes_of_value(high: u8, low: u8)
    ensures
        be_bytes(value_of_be_bytes(high, low)) == seq![high, low],
{
    assert(be_bytes(value_of_be_bytes(high, low)) =~= seq![high, low]);
}

proof fn lemma_answer_pushed(before: Seq<BusAnswer>, answer: BusAnswer)
    ensures
        all_succeeded_after(before, before),
        !(answer is Failed) ==> all_succeeded_after(before.push(answer), before),
        answer is Failed ==> failed_last_after(before.push(answer), before),
{
    assert(before.take(before.len() as int) =~= before);
    assert(before.push(answer).take(before.len() as int) =~= before);
}

proof fn lemma_succeeded_then(a: Seq<BusAnswer>, b: Seq<BusAnswer>, c: Seq<BusAnswer>)
    requires
        all_succeeded_after(b, a),
    ensures
        all_succeeded_after(c, b) ==> all_succeeded_after(c, a),
        failed_last_after(c, b) ==> failed_last_after(c, a),
{
    if b.len() <= c.len() && c.take(b.len() as int) == b {
        assert(c.take(a.len() as int) =~= b.take(a.len() as int));
        assert forall|i: int| a.len() <= i < b.len() implies c[i] == b[i] by {
            assert(c.take(b.len() as int)[i] == c[i]);
        }
    }
}

/// WM8994 control interface for 48 kHz, 16-bit stereo headphone playback.
pub struct Wm8994<I2C> {
    i2c: I2C,
    issued: Ghost<Seq<CodecOp>>,
    answers: Ghost<Seq<BusAnswer>>,
}

impl<I2C> Wm8994<I2C> {
    pub closed spec fn bus(&self) -> I2C {
        self.i2c
    }

    /// The operations the driver has handed to the bus and the delay, oldest
    /// first.
    pub closed spec fn issued(&self) -> Seq<CodecOp> {
        self.issued@
    }

    /// What the bus and the delay answered to each operation, oldest first.
    pub closed spec fn answers(&self) -> Seq<BusAnswer> {
        self.answers@
    }

    pub fn new(i2c: I2C) -> (r: Self)
        ensures
            r.bus() == i2c,
            r.issued() == Seq::<CodecOp>::empty(),
            r.answers() == Seq::<BusAnswer>::empty(),
    {
        Self { i2c, issued: Ghost(Seq::empty()), answers: Ghost(Seq::empty()) }
    }

    pub fn release(self) -> (r: I2C)
        ensures
            r == self.bus(),
    {
        self.i2c
    }
}

impl<I2C: CodecBus> Wm8994<I2C> {
    /// Reads a register: its address goes out most significant byte first and
    /// the two bytes that come back are read the same way.
    pub fn read_register(&mut self, register: u16) -> (r: Result<u16, Error<I2C::Error>>)
        ensures
            final(self).issued() == old(self).issued().push(read_op(register)),
            r is Err ==> r matches Err(Error::Bus(_)),
            r is Err ==> final(self).answers() == old(self).answers().push(BusAnswer::Failed),
            r matches Ok(value) ==> final(self).answers() == old(self).answers().push(
                BusAnswer::Read(be_bytes(value)),
            ),
    {
        let address = [(register / 256) as u8, (register % 256) as u8];
        assert(address@ =~= be_bytes(register));
        let mut value: [u8; 2] = [0; 2];
        let result = self.i2c.write_read(I2C_ADDRESS, &address, &mut value);
        self.issued = Ghost(self.issued@.push(read_op(register)));
        match result {
            Ok(()) => {
                let v = register_value(value);
                proof {
                    lemma_be_bytes_of_value(value@[0], value@[1]);
                    assert(value@ =~= seq![value@[0], value@[1]]);
                }
                self.answers = Ghost(self.answers@.push(BusAnswer::Read(value@)));
                Ok(v)
            },
            Err(error) => {
                self.answers = Ghost(self.answers@.push(BusAnswer::Failed));
                Err(Error::Bus(error))
            },
        }
    }

    /// Writes a register with the bytes of `register_frame(register, value)`.
    pub fn write_register(&mut self, register: u16, value: u16) -> (r: Result<(), Error<I2C::Error>>)
        ensures
            final(self).issued() == old(self).issued().push(write_op(register, value)),
            r is Err ==> r matches Err(Error::Bus(_)),
            r is Ok ==> final(self).answers() == old(self).answers().push(BusAnswer::Done),
            r is Err ==> final(self).answers() == old(self).answers().push(BusAnswer::Failed),
    {
        let frame = register_frame(register, value);
        let result = self.i2c.write(I2C_ADDRESS, &frame);
        self.issued = Ghost(self.issued@.push(write_op(register, value)));
        match result {
            Ok(()) => {
                self.answers = Ghost(self.answers@.push(BusAnswer::Done));
                Ok(())
            },
            Err(error) => {
                self.answers = Ghost(self.answers@.push(BusAnswer::Failed));
                Err(Error::Bus(error))
            },
        }
    }

    fn wait_ms<D: Delay>(&mut self, delay: &mut D, ms: u32)
        ensures
            final(self).issued() == old(self).issued().push(CodecOp::DelayMs(ms)),
            final(self).answers() == old(self).answers().push(BusAnswer::Done),
    {
        delay.delay_ms(ms);
        self.issued = Ghost(self.issued@.push(CodecOp::DelayMs(ms)));
        self.answers = Ghost(self.answers@.push(BusAnswer::Done));
    }

    /// Checks that register 0 reads back the WM8994 device ID: `Ok` exactly
    /// when the bus gave back the ID's bytes.
    pub fn verify_device(&mut self) -> (r: Result<(), Error<I2C::Error>>)
        ensures
            final(self).issued() == old(self).issued().push(read_op(SW_RESET)),
            r is Ok ==> final(self).answers() == old(self).answers().push(
                BusAnswer::Read(be_bytes(DEVICE_ID)),
            ),
            r matches Err(Error::UnexpectedDevice(id)) ==> id != DEVICE_ID && final(self).answers()
                == old(self).answers().push(BusAnswer::Read(be_bytes(id))),
            r matches Err(Error::Bus(_)) ==> final(self).answers() == old(self).answers().push(
                BusAnswer::Failed,
            ),
    {
        let id = self.read_register(SW_RESET)?;
        check_device_id(id)
    }

    /// Resets the codec, waits 5 ms, and checks the device ID.
    pub fn reset_and_verify<D: Delay>(&mut self, delay: &mut D) -> (r: Result<(), Error<I2C::Error>>)
        ensures
            r is Ok ==> final(self).issued() == old(self).issued() + reset_and_verify_ops(),
            r is Ok ==> final(self).answers() == old(self).answers() + seq![
                BusAnswer::Done,
                BusAnswer::Done,
                BusAnswer::Read(be_bytes(DEVICE_ID)),
            ],
            r matches Err(Error::UnexpectedDevice(id)) ==> id != DEVICE_ID && final(self).issued()
                == old(self).issued() + reset_and_verify_ops(),
            r matches Err(Error::UnexpectedDevice(id)) ==> final(self).answers() == old(
                self,
            ).answers() + seq![BusAnswer::Done, BusAnswer::Done, BusAnswer::Read(be_bytes(id))],
            r is Err ==> issued_prefix(final(self).issued(), old(self).issued(), reset_and_verify_ops()),
            r matches Err(Error::Bus(_)) ==> failed_last_after(
                final(self).answers(),
                old(self).answers(),
            ),
            final(self).answers().len() - old(self).answers().len() == final(self).issued().len()
                - old(self).issued().len(),
    {
        let ghost start = self.issued@;
        let ghost start_answers = self.answers@;
        let written = self.write_register(SW_RESET, 0);
        if written.is_err() {
            assert(self.issued@ =~= start + reset_and_verify_ops().take(1));
            proof {
                lemma_answer_pushed(start_answers, BusAnswer::Failed);
            }
            return written;
        }
        self.wait_ms(delay, 5);
        let ghost middle = self.answers@;
        let r = self.verify_device();
        assert(self.issued@ =~= start + reset_and_verify_ops());
        assert(reset_and_verify_ops().take(3) =~= reset_and_verify_ops());
        proof {
            match r {
                Ok(()) => {
                    assert(self.answers@ =~= start_answers + seq![
                        BusAnswer::Done,
                        BusAnswer::Done,
                        BusAnswer::Read(be_bytes(DEVICE_ID)),
                    ]);
                },
                Err(Error::UnexpectedDevice(id)) => {
                    assert(self.answers@ =~= start_answers + seq![
                        BusAnswer::Done,
                        BusAnswer::Done,
                        BusAnswer::Read(be_bytes(id)),
                    ]);
                },
                Err(Error::Bus(_)) => {
                    lemma_answer_pushed(start_answers, BusAnswer::Done);
                    lemma_answer_pushed(start_answers.push(BusAnswer::Done), BusAnswer::Done);
                    lemma_succeeded_then(
                        start_answers,
                        start_answers.push(BusAnswer::Done),
                        middle,
                    );
                    lemma_answer_pushed(middle, BusAnswer::Failed);
                    lemma_succeeded_then(start_answers, middle, self.answers@);
                },
            }
        }
        r
    }

    /// Performs `steps` in order, stopping at the first failed write.
    pub fn run_steps<D: Delay>(&mut self, delay: &mut D, steps: &Vec<CodecStep>) -> (r: Result<
        (),
        Error<I2C::Error>,
    >)
        ensures
            r is Ok ==> final(self).issued() == old(self).issued() + steps_ops(steps@),
            r is Ok ==> all_succeeded_after(final(self).answers(), old(self).answers()),
            r is Err ==> r matches Err(Error::Bus(_)),
            r is Err ==> issued_prefix(
                final(self).issued(),
                old(self).issued(),
                steps_ops(steps@),
            ),
            r is Err ==> failed_last_after(final(self).answers(), old(self).answers()),
            final(self).answers().len() - old(self).answers().len() == final(self).issued().len()
                - old(self).issued().len(),
    {
        let ghost start = self.issued@;
        let ghost start_answers = self.answers@;
        proof {
            lemma_answer_pushed(start_answers, BusAnswer::Done);
        }
        let mut index: usize = 0;
        while index < steps.len()
            invariant
                index <= steps@.len(),
                start == old(self).issued@,
                start_answers == old(self).answers@,
                self.issued@ == start + steps_ops(steps@).take(index as int),
                all_succeeded_after(self.answers@, start_answers),
                self.answers@.len() - start_answers.len() == self.issued@.len() - start.len(),
            decreases steps@.len() - index,
        {
            let ghost before = self.answers@;
            assert(steps_ops(steps@).take(index + 1) =~= steps_ops(steps@).take(index as int).push(
                step_op(steps@[index as int]),
            ));
            match steps[index] {
                CodecStep::Write { register, value } => {
                    let written = self.write_register(register, value);
                    if written.is_err() {
                        assert(self.issued@ =~= start + steps_ops(steps@).take(index + 1));
                        assert(steps_ops(steps@).len() == steps@.len());
                        assert(issued_prefix(self.issued@, start, steps_ops(steps@)));
                        proof {
                            lemma_answer_pushed(before, BusAnswer::Failed);
                            lemma_succeeded_then(start_answers, before, self.answers@);
                        }
                        return written;
                    }
                    proof {
                        lemma_answer_pushed(before, BusAnswer::Done);
                        lemma_succeeded_then(start_answers, before, self.answers@);
                    }
                },
                CodecStep::DelayMs(ms) => {
                    self.wait_ms(delay, ms);
                    proof {
                        lemma_answer_pushed(before, BusAnswer::Done);
                        lemma_succeeded_then(start_answers, before, self.answers@);
                    }
                },
            }
            index = index + 1;
            assert(self.issued@ =~= start + steps_ops(steps@).take(index as int));
        }
        assert(steps_ops(steps@).take(steps@.len() as int) =~= steps_ops(steps@));
        Ok(())
    }

    /// Configure the analog headphone path and AIF1 for SAI-provided clocks:
    /// the reset and device check, then `headphone_playback_steps`, stopping
    /// at the first failed operation.
    ///
    /// The codec is deliberately left muted. Start SAI/DMA first, then call
    /// `set_muted` with `false` once valid zero or audio samples flow.
    pub fn configure_headphone_playback<D: Delay>(&mut self, delay: &mut D, volume_percent: u8) -> (r:
        Result<(), Error<I2C::Error>>)
        ensures
            r is Ok ==> final(self).issued() == old(self).issued() + headphone_playback_ops(
                volume_percent,
            ),
            r is Ok ==> all_succeeded_after(final(self).answers(), old(self).answers()),
            r is Ok ==> final(self).answers()[old(self).answers().len() + 2int] == BusAnswer::Read(
                be_bytes(DEVICE_ID),
            ),
            r matches Err(Error::UnexpectedDevice(id)) ==> id != DEVICE_ID && final(self).issued()
                == old(self).issued() + reset_and_verify_ops(),
            r matches Err(Error::UnexpectedDevice(id)) ==> final(self).answers() == old(
                self,
            ).answers() + seq![BusAnswer::Done, BusAnswer::Done, BusAnswer::Read(be_bytes(id))],
            r is Err ==> issued_prefix(
                final(self).issued(),
                old(self).issued(),
                headphone_playback_ops(volume_percent),
            ),
            r matches Err(Error::Bus(_)) ==> failed_last_after(
                final(self).answers(),
                old(self).answers(),
            ),
            final(self).answers().len() - old(self).answers().len() == final(self).issued().len()
                - old(self).issued().len(),
    {
        let ghost start = self.issued@;
        let ghost start_answers = self.answers@;
        let ghost all = headphone_playback_ops(volume_percent);
        let verified = self.reset_and_verify(delay);
        if verified.is_err() {
            proof {
                let k = choose|k: int|
                    1 <= k <= reset_and_verify_ops().len() && self.issued@ == start
                        + #[trigger] reset_and_verify_ops().take(k);
                assert(all.take(k) =~= reset_and_verify_ops().take(k));
            }
            return verified;
        }
        let ghost middle = self.issued@;
        let ghost middle_answers = self.answers@;
        proof {
            assert(all_succeeded_after(middle_answers, start_answers)) by {
                assert(middle_answers.take(start_answers.len() as int) =~= start_answers);
                assert forall|i: int|
                    start_answers.len() <= i < middle_answers.len() implies !(
                    #[trigger] middle_answers[i] is Failed) by {
                    assert(middle_answers[i] == seq![
                        BusAnswer::Done,
                        BusAnswer::Done,
                        BusAnswer::Read(be_bytes(DEVICE_ID)),
                    ][i - start_answers.len()]);
                }
            }
        }
        let steps = headphone_playback_steps(volume_percent);
        let r = self.run_steps(delay, &steps);
        proof {
            lemma_succeeded_then(start_answers, middle_answers, self.answers@);
            if r is Ok {
                assert(self.issued@ =~= start + all);
                let j = start_answers.len() + 2int;
                assert(self.answers@[j] == middle_answers[j]) by {
                    assert(self.answers@.take(middle_answers.len() as int)[j] == self.answers@[j]);
                }
            } else {
                let ops = steps_ops(steps@);
                let k = choose|k: int|
                    1 <= k <= ops.len() && self.issued@ == middle + #[trigger] ops.take(k);
                assert(all.take(3 + k) =~= reset_and_verify_ops() + ops.take(k));
                assert(self.issued@ =~= start + all.take(3 + k));
            }
        }
        r
    }

    /// Set the headphone PGA volume on a linear 0–100 control scale: both
    /// output volume registers get `output_volume_value(percent)`, the left
    /// first; a failed left write leaves the right one unwritten.
    pub fn set_output_volume(&mut self, percent: u8) -> (r: Result<(), Error<I2C::Error>>)
        ensures
            r is Ok ==> final(self).issued() == old(self).issued() + output_volume_ops(percent),
            r is Ok ==> final(self).answers() == old(self).answers() + seq![
                BusAnswer::Done,
                BusAnswer::Done,
            ],
            r is Err ==> r matches Err(Error::Bus(_)),
            r is Err ==> issued_prefix(
                final(self).issued(),
                old(self).issued(),
                output_volume_ops(percent),
            ),
            r is Err ==> failed_last_after(final(self).answers(), old(self).answers()),
            final(self).answers().len() - old(self).answers().len() == final(self).issued().len()
                - old(self).issued().len(),
    {
        let ghost start = self.issued@;
        let ghost start_answers = self.answers@;
        let value = output_volume_value(percent);
        let left = self.write_register(LEFT_OUTPUT_VOLUME, value);
        if left.is_err() {
            assert(self.issued@ =~= start + output_volume_ops(percent).take(1));
            proof {
                lemma_answer_pushed(start_answers, BusAnswer::Failed);
            }
            return left;
        }
        let ghost middle = self.answers@;
        let r = self.write_register(RIGHT_OUTPUT_VOLUME, value);
        assert(self.issued@ =~= start + output_volume_ops(percent));
        assert(output_volume_ops(percent).take(2) =~= output_volume_ops(percent));
        proof {
            if r is Ok {
                assert(self.answers@ =~= start_answers + seq![BusAnswer::Done, BusAnswer::Done]);
            } else {
                lemma_answer_pushed(start_answers, BusAnswer::Done);
                lemma_answer_pushed(middle, BusAnswer::Failed);
                lemma_succeeded_then(start_answers, middle, self.answers@);
            }
        }
        r
    }

    /// Both AIF1 DAC filters get `mute_value(muted)`, DAC1 first; a failed
    /// first write leaves the second unwritten.
    pub fn set_muted(&mut self, muted: bool) -> (r: Result<(), Error<I2C::Error>>)
        ensures
            r is Ok ==> final(self).issued() == old(self).issued() + mute_ops(muted),
            r is Ok ==> final(self).answers() == old(self).answers() + seq![
                BusAnswer::Done,
                BusAnswer::Done,
            ],
            r is Err ==> r matches Err(Error::Bus(_)),
            r is Err ==> issued_prefix(
                final(self).issued(),
                old(self).issued(),
                mute_ops(muted),
            ),
            r is Err ==> failed_last_after(final(self).answers(), old(self).answers()),
            final(self).answers().len() - old(self).answers().len() == final(self).issued().len()
                - old(self).issued().len(),
    {
        let ghost start = self.issued@;
        let ghost start_answers = self.answers@;
        let value = mute_value(muted);
        let first = self.write_register(AIF1_DAC1_FILTER_1, value);
        if first.is_err() {
            assert(self.issued@ =~= start + mute_ops(muted).take(1));
            proof {
                lemma_answer_pushed(start_answers, BusAnswer::Failed);
            }
            return first;
        }
        let ghost middle = self.answers@;
        let r = self.write_register(AIF1_DAC2_FILTER_1, value);
        assert(self.issued@ =~= start + mute_ops(muted));
        assert(mute_ops(muted).take(2) =~= mute_ops(muted));
        proof {
            if r is Ok {
                assert(self.answers@ =~= start_answers + seq![BusAnswer::Done, BusAnswer::Done]);
            } else {
                lemma_answer_pushed(start_answers, BusAnswer::Done);
                lemma_answer_pushed(middle, BusAnswer::Failed);
                lemma_succeeded_then(start_answers, middle, self.answers@);
            }
        }
        r
    }

    /// Mutes, clears the output mixers and power management 5, then resets,
    /// stopping at the first failed write.
    pub fn power_down(&mut self) -> (r: Result<(), Error<I2C::Error>>)
        ensures
            r is Ok ==> final(self).issued() == old(self).issued() + power_down_ops(),
            r is Ok ==> all_succeeded_after(final(self).answers(), old(self).answers()),
            r is Err ==> r matches Err(Error::Bus(_)),
            r is Err ==> issued_prefix(
                final(self).issued(),
                old(self).issued(),
                power_down_ops(),
            ),
            r is Err ==> failed_last_after(final(self).answers(), old(self).answers()),
            final(self).answers().len() - old(self).answers().len() == final(self).issued().len()
                - old(self).issued().len(),
    {
        let ghost start = self.issued@;
        let ghost start_answers = self.answers@;
        let ghost all = power_down_ops();
        let muted = self.set_muted(true);
        if muted.is_err() {
            proof {
                let k = choose|k: int|
                    1 <= k <= mute_ops(true).len() && self.issued@ == start
                        + #[trigger] mute_ops(true).take(k);
                assert(all.take(k) =~= mute_ops(true).take(k));
            }
            return muted;
        }
        assert(self.issued@ =~= start + all.take(2));
        proof {
            assert(all_succeeded_after(self.answers@, start_answers)) by {
                assert(self.answers@.take(start_answers.len() as int) =~= start_answers);
            }
        }
        let ghost a2 = self.answers@;
        let step = self.write_register(OUTPUT_MIXER_1, 0);
        assert(self.issued@ =~= start + all.take(3));
        proof {
            lemma_answer_pushed(a2, if step is Ok { BusAnswer::Done } else { BusAnswer::Failed });
            lemma_succeeded_then(start_answers, a2, self.answers@);
        }
        if step.is_err() {
            return step;
        }
        let ghost a3 = self.answers@;
        let step = self.write_register(OUTPUT_MIXER_2, 0);
        assert(self.issued@ =~= start + all.take(4));
        proof {
            lemma_answer_pushed(a3, if step is Ok { BusAnswer::Done } else { BusAnswer::Failed });
            lemma_succeeded_then(start_answers, a3, self.answers@);
        }
        if step.is_err() {
            return step;
        }
        let ghost a4 = self.answers@;
        let step = self.write_register(POWER_MANAGEMENT_5, 0);
        assert(self.issued@ =~= start + all.take(5));
        proof {
            lemma_answer_pushed(a4, if step is Ok { BusAnswer::Done } else { BusAnswer::Failed });
            lemma_succeeded_then(start_answers, a4, self.answers@);
        }
        if step.is_err() {
            return step;
        }
        let ghost a5 = self.answers@;
        let r = self.write_register(SW_RESET, 0);
        assert(self.issued@ =~= start + all.take(6));
        assert(all.take(6) =~= all);
        proof {
            lemma_answer_pushed(a5, if r is Ok { BusAnswer::Done } else { BusAnswer::Failed });
            lemma_succeeded_then(start_answers, a5, self.answers@);
        }
        r
    }
}

} // verus!
