//! The motor controller: nine-byte command envelopes, their replies, the
//! unsolicited notifications of a sweep, and the settings derived from them.
use vstd::prelude::*;
use crate::error::ProtocolError;
use crate::link::LinkError;
use crate::wire::{le_bytes, le_u32, lemma_le_bytes_read, push_u32_le, read_u32_le};

verus! {

/// Length of a motor envelope, request or reply.
pub const MOTOR_FRAME_LEN: usize = 9;

/// Opcode that stops a sweep; echoed by the board when it stops by itself.
pub const OP_STOP_SWEEP: u8 = 9;

/// Deadline of a reply to an ordinary command.
pub const COMMAND_TIMEOUT_MS: u64 = 1000;

/// Deadline of a reply to a pulse move: mechanical motion may be slow.
pub const MOVE_TIMEOUT_MS: u64 = 20000;

/// Deadline of each wait for an angle notification during a sweep.
pub const ANGLE_WAIT_TIMEOUT_MS: u64 = 4000;

/// Step pulse count of a fresh rig.
pub const DEFAULT_STEP_PULSE: u32 = 40;

/// Pulses per revolution of a fresh rig.
pub const DEFAULT_PULSES_PER_REVOLUTION: u32 = 15000;

/// A command of the motor controller with its numeric payload.
#[derive(Clone, Copy, Debug, PartialEq, Eq, Structural)]
pub enum MotorCommand {
    /// Pulses of one sweep step.
    SetStepPulse(u32),
    /// Pulses of one full revolution.
    SetPulsesPerRevolution(u32),
    /// Speed in pulses per second.
    SetSpeed(u32),
    /// Takes the present position as zero.
    Calibrate,
    /// Asks for the present angle, returned as the bits of an `f32`.
    GetAngle,
    /// Starts the continuous sweep.
    StartSweep,
    /// Starts turning up.
    JogUp,
    /// Starts turning down.
    JogDown,
    /// Stops a jog.
    JogStop,
    /// Stops the sweep.
    StopSweep,
    /// Turns by a number of pulses.
    MovePulses(u32),
}

impl MotorCommand {
    /// The opcode byte of the command.
    pub open spec fn opcode_spec(self) -> u8 {
        match self {
            MotorCommand::SetStepPulse(_) => 0,
            MotorCommand::SetPulsesPerRevolution(_) => 1,
            MotorCommand::SetSpeed(_) => 2,
            MotorCommand::Calibrate => 3,
            MotorCommand::GetAngle => 4,
            MotorCommand::StartSweep => 5,
            MotorCommand::JogUp => 6,
            MotorCommand::JogDown => 7,
            MotorCommand::JogStop => 8,
            MotorCommand::StopSweep => 9,
            MotorCommand::MovePulses(_) => 1,
        }
    }

    /// The payload of the command: its number, or zero.
    pub open spec fn payload_spec(self) -> u32 {
        match self {
            MotorCommand::SetStepPulse(v) => v,
            MotorCommand::SetPulsesPerRevolution(v) => v,
            MotorCommand::SetSpeed(v) => v,
            MotorCommand::MovePulses(v) => v,
            _ => 0,
        }
    }

    /// How long to wait for the reply, in milliseconds.
    pub open spec fn timeout_spec(self) -> u64 {
        match self {
            MotorCommand::MovePulses(_) => MOVE_TIMEOUT_MS,
            _ => COMMAND_TIMEOUT_MS,
        }
    }

    pub fn opcode(&self) -> (r: u8)
        ensures
            r == self.opcode_spec(),
    {
        match self {
            MotorCommand::SetStepPulse(_) => 0,
            MotorCommand::SetPulsesPerRevolution(_) => 1,
            MotorCommand::SetSpeed(_) => 2,
            MotorCommand::Calibrate => 3,
            MotorCommand::GetAngle => 4,
            MotorCommand::StartSweep => 5,
            MotorCommand::JogUp => 6,
            MotorCommand::JogDown => 7,
            MotorCommand::JogStop => 8,
            MotorCommand::StopSweep => OP_STOP_SWEEP,
            MotorCommand::MovePulses(_) => 1,
        }
    }

    pub fn payload(&self) -> (r: u32)
        ensures
            r == self.payload_spec(),
    {
        match self {
            MotorCommand::SetStepPulse(v) => *v,
            MotorCommand::SetPulsesPerRevolution(v) => *v,
            MotorCommand::SetSpeed(v) => *v,
            MotorCommand::MovePulses(v) => *v,
            _ => 0,
        }
    }

    pub fn timeout_ms(&self) -> (r: u64)
        ensures
            r == self.timeout_spec(),
    {
        match self {
            MotorCommand::MovePulses(_) => MOVE_TIMEOUT_MS,
            _ => COMMAND_TIMEOUT_MS,
        }
    }

    /// The request envelope of the command.
    pub fn encode(&self) -> (r: Vec<u8>)
        ensures
            r@ == envelope_spec(self.opcode_spec(), self.payload_spec()),
    {
        encode_envelope(self.opcode(), self.payload())
    }
}

/// The envelope `EF FE <op> <payload, 4 bytes LE> FF EE`.
pub open spec fn envelope_spec(opcode: u8, payload: u32) -> Seq<u8> {
    seq![0xEFu8, 0xFEu8, opcode] + le_bytes(payload) + seq![0xFFu8, 0xEEu8]
}

/// A decoded envelope.
#[derive(Clone, Copy, Debug, PartialEq, Eq, Structural)]
pub struct Envelope {
    pub opcode: u8,
    pub payload: u32,
}

/// Whether `b` has the length and the header and trailer magic of an envelope.
pub open spec fn is_framed(b: Seq<u8>) -> bool {
    &&& b.len() == MOTOR_FRAME_LEN
    &&& b[0] == 0xEF && b[1] == 0xFE
    &&& b[7] == 0xFF && b[8] == 0xEE
}

/// What a received envelope decodes to.
pub open spec fn envelope_of(b: Seq<u8>) -> Result<Envelope, ProtocolError> {
    if is_framed(b) {
        Ok(Envelope { opcode: b[2], payload: le_u32(b, 3) as u32 })
    } else {
        Err(ProtocolError::UnexpectedResponse)
    }
}

/// Builds the envelope of `opcode` and `payload`.
pub fn encode_envelope(opcode: u8, payload: u32) -> (r: Vec<u8>)
    ensures
        r@ == envelope_spec(opcode, payload),
{
    let mut out: Vec<u8> = vec![0xEFu8, 0xFEu8, opcode];
    push_u32_le(&mut out, payload);
    out.push(0xFFu8);
    out.push(0xEEu8);
    assert(out@ =~= envelope_spec(opcode, payload));
    out
}

/// Decodes a reply: `UnexpectedResponse` unless it is nine bytes with both magics.
pub fn decode_envelope(bytes: &[u8]) -> (r: Result<Envelope, ProtocolError>)
    ensures
        r == envelope_of(bytes@),
{
    if bytes.len() != MOTOR_FRAME_LEN {
        return Err(ProtocolError::UnexpectedResponse);
    }
    if bytes[0] != 0xEF || bytes[1] != 0xFE || bytes[7] != 0xFF || bytes[8] != 0xEE {
        return Err(ProtocolError::UnexpectedResponse);
    }
    Ok(Envelope { opcode: bytes[2], payload: read_u32_le(bytes, 3) })
}

/// The result of a command exchange from the one reply chunk that was awaited:
/// any failed receive is `Timeout`, else the payload of the decoded reply.
pub fn exchange_reply(received: Result<Vec<u8>, LinkError>) -> (r: Result<u32, ProtocolError>)
    ensures
        match received {
            Err(_) => r == Err::<u32, ProtocolError>(ProtocolError::Timeout),
            Ok(chunk) => match envelope_of(chunk@) {
                Ok(e) => r == Ok::<u32, ProtocolError>(e.payload),
                Err(e) => r == Err::<u32, ProtocolError>(e),
            },
        },
{
    match received {
        Err(_) => Err(ProtocolError::Timeout),
        Ok(chunk) => match decode_envelope(chunk.as_slice()) {
            Ok(e) => Ok(e.payload),
            Err(e) => Err(e),
        },
    }
}

/// An unsolicited envelope that the board sends during a sweep.
#[derive(Clone, Copy, Debug, PartialEq, Eq, Structural)]
pub struct Notification {
    /// The present angle, as the bits of an `f32`.
    pub angle_bits: u32,
    /// Whether the board echoed the stop-sweep opcode: the sweep must stop.
    pub stop_requested: bool,
}

/// Reads a notification from the outcome of one wait: any failed receive is
/// `Timeout`; a reply with the stop-sweep opcode asks for the sweep to stop.
pub fn read_notification(received: Result<Vec<u8>, LinkError>) -> (r: Result<
    Notification,
    ProtocolError,
>)
    ensures
        match received {
            Err(_) => r == Err::<Notification, ProtocolError>(ProtocolError::Timeout),
            Ok(chunk) => match envelope_of(chunk@) {
                Ok(e) => r == Ok::<Notification, ProtocolError>(
                    Notification { angle_bits: e.payload, stop_requested: e.opcode == OP_STOP_SWEEP },
                ),
                Err(e) => r == Err::<Notification, ProtocolError>(e),
            },
        },
{
    match received {
        Err(_) => Err(ProtocolError::Timeout),
        Ok(chunk) => match decode_envelope(chunk.as_slice()) {
            Ok(e) => Ok(Notification { angle_bits: e.payload, stop_requested: e.opcode == OP_STOP_SWEEP }),
            Err(e) => Err(e),
        },
    }
}

/// The least integer not below `n / d`, for `n >= 0` and `d > 0`.
pub open spec fn ceil_div(n: int, d: int) -> int {
    (n + d - 1) / d
}

/// `v`, or `u32::MAX` where `v` does not fit.
pub open spec fn clamp_u32(v: int) -> u32 {
    if v > u32::MAX {
        u32::MAX
    } else {
        v as u32
    }
}

/// Pulses of a step of `angle_millideg` thousandths of a degree:
/// `ceil(angle * pulses_per_revolution / 360)`.
pub open spec fn step_pulse_for_angle_spec(angle_millideg: u32, pulses_per_revolution: u32) -> u32 {
    clamp_u32(ceil_div(angle_millideg * pulses_per_revolution, 360_000))
}

/// Pulses per second of a speed of `rpm_milli` thousandths of a revolution
/// per minute: `ceil(pulses_per_revolution * rpm / 60)`.
pub open spec fn pulses_per_second_spec(pulses_per_revolution: u32, rpm_milli: u32) -> u32 {
    clamp_u32(ceil_div(pulses_per_revolution * rpm_milli, 60_000))
}

/// `ceil(a * b / d)`, saturated to `u32::MAX`.
fn scaled_ceil(a: u32, b: u32, d: u64) -> (r: u32)
    requires
        0 < d <= 1_000_000,
    ensures
        r == clamp_u32(ceil_div(a * b, d as int)),
{
    assert(a * b <= 0xffff_fffe_0000_0001) by (nonlinear_arith)
        requires
            0 <= a <= 0xffff_ffff,
            0 <= b <= 0xffff_ffff,
    ;
    let prod: u64 = a as u64 * b as u64;
    let q: u64 = (prod + (d - 1)) / d;
    if q > u32::MAX as u64 {
        u32::MAX
    } else {
        q as u32
    }
}

/// Pulses of one sweep step for an angle in thousandths of a degree.
pub fn step_pulse_for_angle(angle_millideg: u32, pulses_per_revolution: u32) -> (r: u32)
    ensures
        r == step_pulse_for_angle_spec(angle_millideg, pulses_per_revolution),
{
    scaled_ceil(angle_millideg, pulses_per_revolution, 360_000)
}

/// Pulses per second for a speed in thousandths of a revolution per minute.
pub fn pulses_per_second(pulses_per_revolution: u32, rpm_milli: u32) -> (r: u32)
    ensures
        r == pulses_per_second_spec(pulses_per_revolution, rpm_milli),
{
    scaled_ceil(pulses_per_revolution, rpm_milli, 60_000)
}

/// The motor parameters that the rig keeps between commands.
#[derive(Clone, Copy, Debug, PartialEq, Eq, Structural)]
pub struct MotorSettings {
    /// Pulses of one sweep step.
    pub step_pulse: u32,
    /// Pulses of one full revolution.
    pub pulses_per_revolution: u32,
}

impl MotorSettings {
    /// The settings of a fresh rig: 40 pulses a step, 15000 a revolution.
    pub fn new() -> (r: MotorSettings)
        ensures
            r.step_pulse == DEFAULT_STEP_PULSE,
            r.pulses_per_revolution == DEFAULT_PULSES_PER_REVOLUTION,
    {
        MotorSettings {
            step_pulse: DEFAULT_STEP_PULSE,
            pulses_per_revolution: DEFAULT_PULSES_PER_REVOLUTION,
        }
    }

    /// The command that sets the sweep step to `angle_millideg` thousandths
    /// of a degree.
    pub fn step_angle_command(&self, angle_millideg: u32) -> (r: MotorCommand)
        ensures
            r == MotorCommand::SetStepPulse(
                step_pulse_for_angle_spec(angle_millideg, self.pulses_per_revolution),
            ),
    {
        MotorCommand::SetStepPulse(step_pulse_for_angle(angle_millideg, self.pulses_per_revolution))
    }

    /// The command that sets the speed to `rpm_milli` thousandths of a
    /// revolution per minute.
    pub fn speed_command(&self, rpm_milli: u32) -> (r: MotorCommand)
        ensures
            r == MotorCommand::SetSpeed(
                pulses_per_second_spec(self.pulses_per_revolution, rpm_milli),
            ),
    {
        MotorCommand::SetSpeed(pulses_per_second(self.pulses_per_revolution, rpm_milli))
    }

    /// The command that turns by one sweep step.
    pub fn step_move_command(&self) -> (r: MotorCommand)
        ensures
            r == MotorCommand::MovePulses(self.step_pulse),
    {
        MotorCommand::MovePulses(self.step_pulse)
    }

    /// The command that turns by one full revolution.
    pub fn full_turn_command(&self) -> (r: MotorCommand)
        ensures
            r == MotorCommand::MovePulses(self.pulses_per_revolution),
    {
        MotorCommand::MovePulses(self.pulses_per_revolution)
    }

    /// Records a command that the board acknowledged: a new step pulse count
    /// or a new revolution pulse count is kept; other commands change nothing.
    pub fn record_ack(&mut self, command: MotorCommand)
        ensures
            match command {
                MotorCommand::SetStepPulse(v) => *final(self) == MotorSettings {
                    step_pulse: v,
                    ..*old(self)
                },
                MotorCommand::SetPulsesPerRevolution(v) => *final(self) == MotorSettings {
                    pulses_per_revolution: v,
                    ..*old(self)
                },
                _ => *final(self) == *old(self),
            },
    {
        match command {
            MotorCommand::SetStepPulse(v) => {
                self.step_pulse = v;
            },
            MotorCommand::SetPulsesPerRevolution(v) => {
                self.pulses_per_revolution = v;
            },
            _ => {},
        }
    }
}

/// Every encoded envelope starts with `EF FE`, ends with `FF EE`, and decodes
/// back to its opcode and payload.
pub proof fn lemma_envelope_round_trip(opcode: u8, payload: u32)
    ensures
        envelope_spec(opcode, payload).len() == MOTOR_FRAME_LEN,
        envelope_spec(opcode, payload).subrange(0, 2) == seq![0xEFu8, 0xFEu8],
        envelope_spec(opcode, payload).subrange(7, 9) == seq![0xFFu8, 0xEEu8],
        envelope_of(envelope_spec(opcode, payload)) == Ok::<Envelope, ProtocolError>(
            Envelope { opcode, payload },
        ),
{
    let b = envelope_spec(opcode, payload);
    lemma_le_bytes_read(payload);
    assert(b.subrange(0, 2) =~= seq![0xEFu8, 0xFEu8]);
    assert(b.subrange(7, 9) =~= seq![0xFFu8, 0xEEu8]);
    assert(le_u32(b, 3) == le_u32(le_bytes(payload), 0));
}

/// A nine-byte reply whose header or trailer magic is altered always decodes
/// to `UnexpectedResponse`, whatever its other bytes.
pub proof fn lemma_corrupt_envelope_rejected(b: Seq<u8>)
    requires
        b.len() == MOTOR_FRAME_LEN,
        b.subrange(0, 2) != seq![0xEFu8, 0xFEu8] || b.subrange(7, 9) != seq![0xFFu8, 0xEEu8],
    ensures
        envelope_of(b) == Err::<Envelope, ProtocolError>(ProtocolError::UnexpectedResponse),
{
    if is_framed(b) {
        assert(b.subrange(0, 2) =~= seq![0xEFu8, 0xFEu8]);
        assert(b.subrange(7, 9) =~= seq![0xFFu8, 0xEEu8]);
    }
}

} // verus!
