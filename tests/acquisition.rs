use rig_control::error::ProtocolError;
use rig_control::laser::{laser_trigger, radius_rejected, LaserFrames, LaserRecord};
use rig_control::link::{LinkError, Progress};
use rig_control::motor::MotorCommand;
use rig_control::ports::{PortInfo, PortKind};
use rig_control::ring::{HallBuffer, Payload, BUFFER_SIZE};
use rig_control::sweep::{Notice, Severity, Sweep, SweepAction, SweepEvent, SweepPhase, Wait};

fn datagram(id: u8, radii: &[f32]) -> Vec<u8> {
    let mut d = vec![0x11, 0x22, 0x33, 0x44];
    for (k, r) in radii.iter().enumerate() {
        d.extend_from_slice(&r.to_le_bytes());
        d.extend_from_slice(&(k as f32).to_le_bytes());
    }
    d.push(id);
    d
}

#[test]
fn laser_trigger_bytes() {
    assert_eq!(laser_trigger(), vec![0xAA, 0x55, 0x55, 0xAA, 0x02, 0x00, 0x21, 0x01]);
}

#[test]
fn laser_eight_ids_in_any_order_complete() {
    let mut f = LaserFrames::new();
    let order = [5u8, 2, 7, 0, 3, 6, 1, 4];
    for (n, id) in order.iter().enumerate() {
        let p = f.accept(Ok(datagram(*id, &[10.0; 2])));
        if n < 7 {
            assert!(matches!(p, Progress::Pending));
        } else {
            assert!(matches!(p, Progress::Done(())));
        }
    }
    assert_eq!(f.len(), 8);
}

#[test]
fn laser_seven_ids_time_out() {
    let mut f = LaserFrames::new();
    for id in 0u8..7 {
        assert!(matches!(f.accept(Ok(datagram(id, &[1.0]))), Progress::Pending));
    }
    // A repeated id replaces its frame and does not complete the burst.
    assert!(matches!(f.accept(Ok(datagram(3, &[1.0]))), Progress::Pending));
    assert_eq!(f.len(), 7);
    assert!(matches!(
        f.accept(Err(LinkError::TimedOut)),
        Progress::Failed(ProtocolError::Timeout)
    ));
}

#[test]
fn laser_empty_and_failed_datagrams() {
    let mut f = LaserFrames::new();
    assert!(matches!(
        f.accept(Ok(Vec::new())),
        Progress::Failed(ProtocolError::MalformedFrame)
    ));
    assert!(matches!(
        f.accept(Err(LinkError::IoError)),
        Progress::Failed(ProtocolError::IoError)
    ));
    assert_eq!(f.len(), 0);
}

#[test]
fn laser_rejection_floor() {
    assert!(radius_rejected((-70.5f32).to_bits()));
    assert!(radius_rejected(f32::NEG_INFINITY.to_bits()));
    assert!(!radius_rejected((-70.0f32).to_bits()));
    assert!(!radius_rejected((-69.9f32).to_bits()));
    assert!(!radius_rejected(0.0f32.to_bits()));
    assert!(!radius_rejected(500.0f32.to_bits()));
    assert!(!radius_rejected((-0.0f32).to_bits()));
    assert!(!radius_rejected(f32::NAN.to_bits()));
}

#[test]
fn laser_one_in_eleven_surviving_records() {
    let mut f = LaserFrames::new();
    // Frame 1 holds records 0..6 and frame 0 records with radii 100..105;
    // frames are read in id order, so frame 0 comes first.
    let first: Vec<f32> = (0..6).map(|k| 100.0 + k as f32).collect();
    let second: Vec<f32> = vec![200.0, -80.0, 201.0, 202.0, -75.0, 203.0, 204.0, 205.0];
    f.accept(Ok(datagram(1, &second)));
    f.accept(Ok(datagram(0, &first)));
    let r = f.select_records();
    // Surviving: 100..105 (6), then 200, 201, 202, 203, 204, 205 (6): the
    // eleventh is 204.
    assert_eq!(r.len(), 1);
    assert_eq!(f32::from_bits(r[0].radius_bits), 204.0);
    assert_eq!(f32::from_bits(r[0].height_bits), 6.0);
}

#[test]
fn laser_one_surviving_record_reports_nothing() {
    let mut f = LaserFrames::new();
    f.accept(Ok(datagram(0, &[0.0])));
    assert_eq!(f.select_records(), Vec::<LaserRecord>::new());
}

#[test]
fn laser_short_frame_and_partial_record_ignored() {
    let mut f = LaserFrames::new();
    f.accept(Ok(vec![1, 2, 0]));
    let mut d = datagram(1, &[1.0; 11]);
    d.insert(d.len() - 1, 0xEE);
    f.accept(Ok(d));
    assert_eq!(f.select_records().len(), 1);
}

fn payload(k: u32) -> Payload {
    Payload { angle_bits: k, data: [k as i32; 9] }
}

#[test]
fn ring_keeps_latest_capacity_items() {
    let mut b = HallBuffer::new();
    let k = 5u32;
    for i in 0..(BUFFER_SIZE as u32 + k) {
        b.push_hall_data(payload(i));
    }
    assert_eq!(b.len(), BUFFER_SIZE);
    let all = b.fetch_hall_data(usize::MAX);
    assert_eq!(all.len(), BUFFER_SIZE);
    for (n, p) in all.iter().enumerate() {
        assert_eq!(*p, payload(n as u32 + k));
    }
    assert_eq!(b.len(), 0);
}

#[test]
fn ring_drain_returns_min() {
    let mut b = HallBuffer::new();
    assert!(b.fetch_hall_data(10).is_empty());
    for i in 0..7 {
        b.push_hall_data(payload(i));
    }
    let first = b.fetch_hall_data(3);
    assert_eq!(first, vec![payload(0), payload(1), payload(2)]);
    assert_eq!(b.len(), 4);
    let rest = b.fetch_hall_data(1000);
    assert_eq!(rest.len(), 4);
    assert_eq!(rest[0], payload(3));
    assert_eq!(b.len(), 0);
}

fn start_running(s: &mut Sweep, step: u32, ppr: u32) {
    let a = s.step(SweepEvent::Start { step_pulse: step, pulses_per_revolution: ppr });
    assert!(matches!(a[..], [SweepAction::ResetCancel, SweepAction::Motor(MotorCommand::StartSweep)]));
    let a = s.step(SweepEvent::MotorReplied(Ok(0)));
    assert!(matches!(a[..], [SweepAction::CreateProject]));
    let a = s.step(SweepEvent::ProjectCreated(Ok(17)));
    assert!(matches!(a[..], [SweepAction::StartListener]));
    assert_eq!(s.phase, SweepPhase::Running);
}

fn one_angle(s: &mut Sweep, angle: f32) -> Vec<SweepAction> {
    let a = s.step(SweepEvent::Angle(angle.to_bits()));
    assert!(matches!(a[..], [SweepAction::RequestHall]));
    let hall = [1, 2, 3, 4, 5, 6, 7, 8, 9];
    let a = s.step(SweepEvent::HallSampled(Ok(hall)));
    match a[..] {
        [SweepAction::AppendSample { project_id, sample }] => {
            assert_eq!(project_id, 17);
            assert_eq!(sample, Payload { angle_bits: angle.to_bits(), data: hall });
        }
        _ => panic!("unexpected {:?}", a),
    }
    let a = s.step(SweepEvent::Stored(Ok(())));
    assert_eq!(a.len(), 3);
    assert!(matches!(a[2], SweepAction::RequestLaser(b) if b == angle.to_bits()));
    s.step(SweepEvent::LaserSampled(Ok(())))
}

#[test]
fn sweep_full_rotation_completes_without_stop_request() {
    let mut s = Sweep::new();
    start_running(&mut s, 40, 15000);
    for n in 1..=375u32 {
        let a = one_angle(&mut s, n as f32 * 0.96);
        if n < 375 {
            assert!(matches!(a[..], [SweepAction::LogLaser(_)]));
            assert_eq!(s.phase, SweepPhase::Running);
        } else {
            assert!(matches!(
                a[..],
                [SweepAction::LogLaser(_), SweepAction::Motor(MotorCommand::StopSweep)]
            ));
        }
    }
    assert_eq!(s.phase, SweepPhase::Completing);
    let a = s.step(SweepEvent::MotorReplied(Ok(0)));
    assert!(matches!(a[..], [SweepAction::Notify(Notice::Completed), SweepAction::Halt]));
    assert!(s.step(SweepEvent::Halted).is_empty());
    assert_eq!(s.phase, SweepPhase::Idle);
}

#[test]
fn sweep_cancel_stops_appends() {
    let mut s = Sweep::new();
    start_running(&mut s, 40, 15000);
    s.step(SweepEvent::Angle(1.0f32.to_bits()));
    let a = s.step(SweepEvent::Cancelled);
    assert!(matches!(a[..], [SweepAction::Motor(MotorCommand::StopSweep)]));
    assert_eq!(s.phase, SweepPhase::Completing);
    // A hall sample that was in flight is dropped: nothing is appended.
    assert!(s.step(SweepEvent::HallSampled(Ok([0; 9]))).is_empty());
    assert!(s.step(SweepEvent::Angle(2.0f32.to_bits())).is_empty());
    let a = s.step(SweepEvent::MotorReplied(Err(ProtocolError::Timeout)));
    assert!(matches!(
        a[..],
        [SweepAction::Notify(Notice::StopFailed(ProtocolError::Timeout)), SweepAction::Halt]
    ));
    s.step(SweepEvent::Halted);
    assert_eq!(s.phase, SweepPhase::Idle);
}

#[test]
fn sweep_cancel_success_notice() {
    let mut s = Sweep::new();
    start_running(&mut s, 40, 15000);
    s.step(SweepEvent::Cancelled);
    let a = s.step(SweepEvent::MotorReplied(Ok(0)));
    assert!(matches!(a[..], [SweepAction::Notify(Notice::Stopped), SweepAction::Halt]));
    assert_eq!(Notice::Stopped.severity(), Severity::Success);
}

#[test]
fn sweep_hall_failure_aborts() {
    let mut s = Sweep::new();
    start_running(&mut s, 40, 15000);
    s.step(SweepEvent::Angle(0));
    let a = s.step(SweepEvent::HallSampled(Err(ProtocolError::Timeout)));
    assert!(matches!(
        a[..],
        [SweepAction::Notify(Notice::HallFailed(ProtocolError::Timeout)), SweepAction::Halt]
    ));
    assert_eq!(s.phase, SweepPhase::Aborting);
    assert_eq!(Notice::HallFailed(ProtocolError::Timeout).severity(), Severity::Error);
    s.step(SweepEvent::Halted);
    assert_eq!(s.phase, SweepPhase::Idle);
}

#[test]
fn sweep_storage_failure_keeps_telemetry() {
    let mut s = Sweep::new();
    start_running(&mut s, 40, 15000);
    s.step(SweepEvent::Angle(7));
    s.step(SweepEvent::HallSampled(Ok([3; 9])));
    let a = s.step(SweepEvent::Stored(Err(ProtocolError::StorageError)));
    let p = Payload { angle_bits: 7, data: [3; 9] };
    assert!(matches!(
        a[..],
        [
            SweepAction::Notify(Notice::SampleNotStored),
            SweepAction::PushTelemetry(x),
            SweepAction::LogHall(y),
            SweepAction::RequestLaser(7)
        ] if x == p && y == p
    ));
    assert_eq!(s.phase, SweepPhase::Running);
}

#[test]
fn sweep_laser_failure_aborts() {
    let mut s = Sweep::new();
    start_running(&mut s, 40, 15000);
    s.step(SweepEvent::Angle(7));
    s.step(SweepEvent::HallSampled(Ok([3; 9])));
    s.step(SweepEvent::Stored(Ok(())));
    let a = s.step(SweepEvent::LaserSampled(Err(ProtocolError::Timeout)));
    assert!(matches!(
        a[..],
        [SweepAction::Notify(Notice::LaserFailed(ProtocolError::Timeout)), SweepAction::Halt]
    ));
    assert_eq!(s.phase, SweepPhase::Aborting);
}

#[test]
fn sweep_listener_timeout_aborts() {
    let mut s = Sweep::new();
    start_running(&mut s, 40, 15000);
    let a = s.step(SweepEvent::ListenerTimedOut);
    assert!(matches!(
        a[..],
        [SweepAction::Notify(Notice::MotorUnresponsive), SweepAction::Halt]
    ));
    assert_eq!(s.wait, Wait::Halt);
}

#[test]
fn sweep_start_failures_return_to_idle() {
    let mut s = Sweep::new();
    s.step(SweepEvent::Start { step_pulse: 40, pulses_per_revolution: 15000 });
    let a = s.step(SweepEvent::MotorReplied(Err(ProtocolError::UnexpectedResponse)));
    assert!(matches!(
        a[..],
        [SweepAction::Notify(Notice::StartFailed(ProtocolError::UnexpectedResponse))]
    ));
    assert_eq!(s.phase, SweepPhase::Idle);
    s.step(SweepEvent::Start { step_pulse: 40, pulses_per_revolution: 15000 });
    s.step(SweepEvent::MotorReplied(Ok(0)));
    let a = s.step(SweepEvent::ProjectCreated(Err(ProtocolError::StorageError)));
    assert!(matches!(a[..], [SweepAction::Notify(Notice::ProjectFailed)]));
    assert_eq!(s.phase, SweepPhase::Idle);
}

#[test]
fn sweep_second_start_ignored_while_running() {
    let mut s = Sweep::new();
    start_running(&mut s, 40, 15000);
    assert!(s.step(SweepEvent::Start { step_pulse: 1, pulses_per_revolution: 1 }).is_empty());
    assert_eq!(s.step_pulse, 40);
    assert_eq!(s.phase, SweepPhase::Running);
}

#[test]
fn port_labels() {
    let p = PortInfo::describe("COM3".to_string(), PortKind::Usb(Some("CH340".to_string())));
    assert_eq!(p.port, "COM3");
    assert_eq!(p.info, "CH340");
    let p = PortInfo::describe("x".to_string(), PortKind::Usb(None));
    assert_eq!(p.info, "Unknown Product");
    assert_eq!(PortInfo::describe("x".to_string(), PortKind::Pci).info, "PCI Port");
    assert_eq!(PortInfo::describe("x".to_string(), PortKind::Bluetooth).info, "Bluetooth Port");
    assert_eq!(PortInfo::describe("x".to_string(), PortKind::Unknown).info, "串行设备");
}
