use rig_control::error::ProtocolError;
use rig_control::hall::{hall_encode_frame, hall_parse_data, hall_trigger, HallReply};
use rig_control::link::{LinkError, Progress};
use rig_control::motor::{
    decode_envelope, encode_envelope, exchange_reply, pulses_per_second, read_notification,
    step_pulse_for_angle, Envelope, MotorCommand, MotorSettings,
};

fn sample_frame() -> Vec<u8> {
    let mut b = vec![0xAA, 0xBB, 0xCC, 0xDD];
    for v in [1i32, -1, 8388607, -8388608, 0, i32::MAX, i32::MIN, 256, -256] {
        b.extend_from_slice(&v.to_le_bytes());
    }
    b.extend_from_slice(&[9, 9, 9, 9]);
    b
}

#[test]
fn hall_trigger_bytes() {
    assert_eq!(hall_trigger(), vec![0xFF, 0xEE, 0xAA, 0xEF, 0xFE]);
}

#[test]
fn hall_parse_reads_nine_values_after_header() {
    let s = hall_parse_data(&sample_frame()).unwrap();
    assert_eq!(s, [1, -1, 8388607, -8388608, 0, i32::MAX, i32::MIN, 256, -256]);
}

#[test]
fn hall_parse_rejects_short_frame() {
    let f = sample_frame();
    assert_eq!(hall_parse_data(&f[..43]), None);
    assert_eq!(hall_parse_data(&[]), None);
}

#[test]
fn hall_round_trip() {
    let s = [5, -7, 0, 1 << 30, -(1 << 30), i32::MAX, i32::MIN, 42, -42];
    let f = hall_encode_frame(&s);
    assert_eq!(f.len(), 44);
    assert_eq!(&f[4..8], &5i32.to_le_bytes());
    assert_eq!(hall_parse_data(&f), Some(s));
}

#[test]
fn hall_reply_from_split_chunks() {
    let f = sample_frame();
    let mut r = HallReply::new();
    assert!(matches!(r.accept(Ok(f[..10].to_vec())), Progress::Pending));
    assert!(matches!(r.accept(Ok(f[10..30].to_vec())), Progress::Pending));
    let mut tail = f[30..].to_vec();
    tail.extend_from_slice(&[1, 2, 3]);
    match r.accept(Ok(tail)) {
        Progress::Done(s) => assert_eq!(s[2], 8388607),
        other => panic!("unexpected {:?}", other),
    }
}

#[test]
fn hall_reply_timeout() {
    let mut r = HallReply::new();
    assert!(matches!(r.accept(Ok(vec![1, 2, 3])), Progress::Pending));
    assert!(matches!(
        r.accept(Err(LinkError::TimedOut)),
        Progress::Failed(ProtocolError::Timeout)
    ));
}

#[test]
fn motor_envelope_bytes() {
    assert_eq!(
        encode_envelope(2, 0x0403_0201),
        vec![0xEF, 0xFE, 0x02, 0x01, 0x02, 0x03, 0x04, 0xFF, 0xEE]
    );
    assert_eq!(
        MotorCommand::MovePulses(40).encode(),
        vec![0xEF, 0xFE, 0x01, 40, 0, 0, 0, 0xFF, 0xEE]
    );
    assert_eq!(MotorCommand::StopSweep.encode()[2], 9);
    assert_eq!(MotorCommand::StartSweep.encode()[2], 5);
}

#[test]
fn motor_command_timeouts() {
    assert_eq!(MotorCommand::MovePulses(1).timeout_ms(), 20000);
    assert_eq!(MotorCommand::GetAngle.timeout_ms(), 1000);
    assert_eq!(MotorCommand::StopSweep.timeout_ms(), 1000);
}

#[test]
fn motor_envelope_round_trip_every_opcode() {
    for op in 0u8..=9 {
        let e = encode_envelope(op, 0xDEAD_BEEF);
        assert_eq!(&e[0..2], &[0xEF, 0xFE]);
        assert_eq!(&e[7..9], &[0xFF, 0xEE]);
        assert_eq!(decode_envelope(&e), Ok(Envelope { opcode: op, payload: 0xDEAD_BEEF }));
    }
}

#[test]
fn motor_corrupt_envelope_is_unexpected() {
    let good = encode_envelope(4, 7);
    for i in [0usize, 1, 7, 8] {
        let mut bad = good.clone();
        bad[i] ^= 0x10;
        assert_eq!(decode_envelope(&bad), Err(ProtocolError::UnexpectedResponse));
    }
    assert_eq!(decode_envelope(&good[..8]), Err(ProtocolError::UnexpectedResponse));
    assert_eq!(decode_envelope(&[]), Err(ProtocolError::UnexpectedResponse));
}

#[test]
fn motor_exchange_reply() {
    let angle = 12.5f32.to_bits();
    assert_eq!(exchange_reply(Ok(encode_envelope(4, angle))), Ok(angle));
    assert_eq!(exchange_reply(Err(LinkError::Closed)), Err(ProtocolError::Timeout));
    assert_eq!(exchange_reply(Ok(vec![1, 2, 3])), Err(ProtocolError::UnexpectedResponse));
}

#[test]
fn motor_stop_notification() {
    let n = read_notification(Ok(encode_envelope(9, 0))).unwrap();
    assert!(n.stop_requested);
    let a = read_notification(Ok(encode_envelope(4, 90.0f32.to_bits()))).unwrap();
    assert!(!a.stop_requested);
    assert_eq!(f32::from_bits(a.angle_bits), 90.0);
    assert_eq!(read_notification(Err(LinkError::TimedOut)), Err(ProtocolError::Timeout));
}

#[test]
fn motor_step_pulse_formula() {
    assert_eq!(step_pulse_for_angle(960, 15000), 40);
    assert_eq!(step_pulse_for_angle(1000, 15000), 42);
    assert_eq!(step_pulse_for_angle(0, 15000), 0);
    assert_eq!(step_pulse_for_angle(u32::MAX, u32::MAX), u32::MAX);
}

#[test]
fn motor_speed_formula() {
    assert_eq!(pulses_per_second(15000, 1000), 250);
    assert_eq!(pulses_per_second(15000, 1001), 251);
    assert_eq!(pulses_per_second(0, 5000), 0);
}

#[test]
fn motor_settings_follow_acknowledged_commands() {
    let mut s = MotorSettings::new();
    assert_eq!(s.step_pulse, 40);
    assert_eq!(s.pulses_per_revolution, 15000);
    assert_eq!(s.step_angle_command(960), MotorCommand::SetStepPulse(40));
    s.record_ack(MotorCommand::SetPulsesPerRevolution(36000));
    assert_eq!(s.pulses_per_revolution, 36000);
    let c = s.step_angle_command(1000);
    assert_eq!(c, MotorCommand::SetStepPulse(100));
    s.record_ack(c);
    assert_eq!(s.step_pulse, 100);
    s.record_ack(MotorCommand::Calibrate);
    assert_eq!(s, MotorSettings { step_pulse: 100, pulses_per_revolution: 36000 });
    assert_eq!(s.step_move_command(), MotorCommand::MovePulses(100));
    assert_eq!(s.full_turn_command(), MotorCommand::MovePulses(36000));
    assert_eq!(s.speed_command(1000), MotorCommand::SetSpeed(600));
}
