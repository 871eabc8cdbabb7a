//! The sweep orchestrator: the decisions of one full-rotation acquisition,
//! as a state machine from events (replies, samples, timeouts, the
//! cancellation signal) to the actions that the caller carries out.
use vstd::prelude::*;
use crate::error::ProtocolError;
use crate::hall::HallSample;
use crate::motor::{MotorCommand, ANGLE_WAIT_TIMEOUT_MS};
use crate::ring::Payload;

verus! {

/// The phase of a sweep.
#[derive(Clone, Copy, Debug, PartialEq, Eq, Structural)]
pub enum SweepPhase {
    Idle,
    Starting,
    Running,
    Completing,
    Aborting,
}

/// What the sweep is waiting for within its phase.
#[derive(Clone, Copy, Debug, PartialEq, Eq, Structural)]
pub enum Wait {
    /// Nothing: no sweep is under way.
    Nothing,
    /// The reply to the start-sweep command.
    MotorStart,
    /// The new project record.
    Project,
    /// The next angle notification.
    Angle,
    /// The hall sample of the present angle.
    Hall,
    /// The outcome of persisting the present sample.
    Storage,
    /// The laser sample of the present angle.
    Laser,
    /// The reply to the stop-sweep command.
    StopReply,
    /// The end of the sweep's tasks.
    Halt,
}

/// A user-visible status message.
#[derive(Clone, Copy, Debug, PartialEq, Eq, Structural)]
pub enum Notice {
    /// The motor did not acknowledge the start of the sweep.
    StartFailed(ProtocolError),
    /// The project record could not be created.
    ProjectFailed,
    /// A sample could not be persisted; the sweep goes on.
    SampleNotStored,
    /// The hall array failed; the sweep is over.
    HallFailed(ProtocolError),
    /// The laser failed; the sweep is over.
    LaserFailed(ProtocolError),
    /// The motor board sent no angle in time; the sweep is over.
    MotorUnresponsive,
    /// A full rotation was acquired and the motor stopped.
    Completed,
    /// The sweep was cancelled and the motor stopped.
    Stopped,
    /// The motor did not acknowledge the stop.
    StopFailed(ProtocolError),
}

/// The severity of a notice.
#[derive(Clone, Copy, Debug, PartialEq, Eq, Structural)]
pub enum Severity {
    Info,
    Success,
    Error,
}

impl Notice {
    pub open spec fn severity_spec(self) -> Severity {
        match self {
            Notice::Completed | Notice::Stopped => Severity::Success,
            _ => Severity::Error,
        }
    }

    /// `Success` for a completed or cancelled sweep, `Error` otherwise.
    pub fn severity(&self) -> (r: Severity)
        ensures
            r == self.severity_spec(),
    {
        match self {
            Notice::Completed | Notice::Stopped => Severity::Success,
            _ => Severity::Error,
        }
    }
}

/// Something the caller of the sweep must do.
#[derive(Clone, Copy, Debug)]
pub enum SweepAction {
    /// Set the cancellation signal back to false.
    ResetCancel,
    /// Send the command to the motor; its reply is `MotorReplied`.
    Motor(MotorCommand),
    /// Create the project record; the outcome is `ProjectCreated`.
    CreateProject,
    /// Start waiting for angle notifications: `Angle` or `ListenerTimedOut`.
    StartListener,
    /// Request a hall sample: `HallSampled`.
    RequestHall,
    /// Append the sample to the project's record: `Stored`.
    AppendSample { project_id: i64, sample: Payload },
    /// Put the sample into the telemetry buffer.
    PushTelemetry(Payload),
    /// Write the sample to the raw and the voltage hall logs.
    LogHall(Payload),
    /// Request a laser sample at the angle with these bits: `LaserSampled`.
    RequestLaser(u32),
    /// Write the points of the laser sample just taken at that angle.
    LogLaser(u32),
    /// Tell the user.
    Notify(Notice),
    /// Stop the sweep's tasks: `Halted`.
    Halt,
}

/// Something that happened to the sweep.
#[derive(Clone, Copy, Debug)]
pub enum SweepEvent {
    /// A start request with the motor's present settings.
    Start { step_pulse: u32, pulses_per_revolution: u32 },
    /// The reply to the last motor command.
    MotorReplied(Result<u32, ProtocolError>),
    /// The outcome of creating the project record.
    ProjectCreated(Result<i64, ProtocolError>),
    /// An angle notification, as the bits of an `f32`.
    Angle(u32),
    /// An angle wait ran out.
    ListenerTimedOut,
    /// The cancellation signal became true.
    Cancelled,
    /// The outcome of a hall request.
    HallSampled(Result<HallSample, ProtocolError>),
    /// The outcome of persisting a sample.
    Stored(Result<(), ProtocolError>),
    /// The outcome of a laser request.
    LaserSampled(Result<(), ProtocolError>),
    /// The sweep's tasks have stopped.
    Halted,
}

/// The state of a sweep.
#[derive(Clone, Copy, Debug)]
pub struct Sweep {
    pub phase: SweepPhase,
    pub wait: Wait,
    /// The project record of the sweep.
    pub project_id: i64,
    /// The angle being sampled, as the bits of an `f32`.
    pub angle_bits: u32,
    /// The hall sample of that angle.
    pub hall: HallSample,
    /// Pulses the motor turns between two angles.
    pub step_pulse: u32,
    /// Pulses of a full rotation.
    pub pulses_per_revolution: u32,
    /// Pulses turned since the start, counted per angle notification.
    pub pulses_done: u64,
    /// Whether the sweep is completing because the rotation is full.
    pub full_turn: bool,
}

/// The state after a sweep is over.
pub open spec fn idle_of(s: Sweep) -> Sweep {
    Sweep { phase: SweepPhase::Idle, wait: Wait::Nothing, ..s }
}

/// The state that stops the motor, for a full rotation or a cancellation.
pub open spec fn stopping_of(s: Sweep, full_turn: bool) -> Sweep {
    Sweep { phase: SweepPhase::Completing, wait: Wait::StopReply, full_turn, ..s }
}

/// The state after a fatal failure.
pub open spec fn aborting_of(s: Sweep) -> Sweep {
    Sweep { phase: SweepPhase::Aborting, wait: Wait::Halt, ..s }
}

/// The sample of the present angle.
pub open spec fn sample_of(s: Sweep) -> Payload {
    Payload { angle_bits: s.angle_bits, data: s.hall }
}

/// The next state of a sweep and the actions to carry out, for one event.
/// Events that the present state does not wait for change nothing.
pub open spec fn sweep_next(s: Sweep, e: SweepEvent) -> (Sweep, Seq<SweepAction>) {
    let unchanged = (s, Seq::<SweepAction>::empty());
    match e {
        SweepEvent::Start { step_pulse, pulses_per_revolution } => if s.phase == SweepPhase::Idle {
            (
                Sweep {
                    phase: SweepPhase::Starting,
                    wait: Wait::MotorStart,
                    step_pulse,
                    pulses_per_revolution,
                    pulses_done: 0,
                    full_turn: false,
                    ..s
                },
                seq![SweepAction::ResetCancel, SweepAction::Motor(MotorCommand::StartSweep)],
            )
        } else {
            unchanged
        },
        SweepEvent::MotorReplied(reply) => if s.wait == Wait::MotorStart {
            match reply {
                Ok(_) => (Sweep { wait: Wait::Project, ..s }, seq![SweepAction::CreateProject]),
                Err(err) => (idle_of(s), seq![SweepAction::Notify(Notice::StartFailed(err))]),
            }
        } else if s.wait == Wait::StopReply {
            let notice = match reply {
                Ok(_) => if s.full_turn {
                    Notice::Completed
                } else {
                    Notice::Stopped
                },
                Err(err) => Notice::StopFailed(err),
            };
            (Sweep { wait: Wait::Halt, ..s }, seq![SweepAction::Notify(notice), SweepAction::Halt])
        } else {
            unchanged
        },
        SweepEvent::ProjectCreated(created) => if s.wait == Wait::Project {
            match created {
                Ok(id) => (
                    Sweep { phase: SweepPhase::Running, wait: Wait::Angle, project_id: id, ..s },
                    seq![SweepAction::StartListener],
                ),
                Err(_) => (idle_of(s), seq![SweepAction::Notify(Notice::ProjectFailed)]),
            }
        } else {
            unchanged
        },
        SweepEvent::Angle(a) => if s.phase == SweepPhase::Running && s.wait == Wait::Angle {
            (
                Sweep {
                    wait: Wait::Hall,
                    angle_bits: a,
                    pulses_done: (s.pulses_done + s.step_pulse) as u64,
                    ..s
                },
                seq![SweepAction::RequestHall],
            )
        } else {
            unchanged
        },
        SweepEvent::ListenerTimedOut => if s.phase == SweepPhase::Running {
            (
                aborting_of(s),
                seq![SweepAction::Notify(Notice::MotorUnresponsive), SweepAction::Halt],
            )
        } else {
            unchanged
        },
        SweepEvent::Cancelled => if s.phase == SweepPhase::Starting || s.phase
            == SweepPhase::Running {
            (stopping_of(s, false), seq![SweepAction::Motor(MotorCommand::StopSweep)])
        } else {
            unchanged
        },
        SweepEvent::HallSampled(sampled) => if s.phase == SweepPhase::Running && s.wait
            == Wait::Hall {
            match sampled {
                Ok(h) => {
                    let t = Sweep { wait: Wait::Storage, hall: h, ..s };
                    (
                        t,
                        seq![
                            SweepAction::AppendSample {
                                project_id: s.project_id,
                                sample: sample_of(t),
                            },
                        ],
                    )
                },
                Err(err) => (
                    aborting_of(s),
                    seq![SweepAction::Notify(Notice::HallFailed(err)), SweepAction::Halt],
                ),
            }
        } else {
            unchanged
        },
        SweepEvent::Stored(outcome) => if s.phase == SweepPhase::Running && s.wait
            == Wait::Storage {
            let rest = seq![
                SweepAction::PushTelemetry(sample_of(s)),
                SweepAction::LogHall(sample_of(s)),
                SweepAction::RequestLaser(s.angle_bits),
            ];
            let t = Sweep { wait: Wait::Laser, ..s };
            match outcome {
                Ok(_) => (t, rest),
                Err(_) => (t, seq![SweepAction::Notify(Notice::SampleNotStored)] + rest),
            }
        } else {
            unchanged
        },
        SweepEvent::LaserSampled(sampled) => if s.phase == SweepPhase::Running && s.wait
            == Wait::Laser {
            match sampled {
                Ok(_) => if s.pulses_done >= s.pulses_per_revolution {
                    (
                        stopping_of(s, true),
                        seq![
                            SweepAction::LogLaser(s.angle_bits),
                            SweepAction::Motor(MotorCommand::StopSweep),
                        ],
                    )
                } else {
                    (Sweep { wait: Wait::Angle, ..s }, seq![SweepAction::LogLaser(s.angle_bits)])
                },
                Err(err) => (
                    aborting_of(s),
                    seq![SweepAction::Notify(Notice::LaserFailed(err)), SweepAction::Halt],
                ),
            }
        } else {
            unchanged
        },
        SweepEvent::Halted => if s.wait == Wait::Halt {
            (idle_of(s), Seq::empty())
        } else {
            unchanged
        },
    }
}

impl Sweep {
    /// Each phase waits for one of its own events, and the pulse count stays
    /// in range: zero while starting, and below a full rotation, or zero,
    /// while an angle is awaited.
    pub open spec fn wf(&self) -> bool {
        &&& match self.phase {
            SweepPhase::Idle => self.wait == Wait::Nothing,
            SweepPhase::Starting => self.wait == Wait::MotorStart || self.wait == Wait::Project,
            SweepPhase::Running => self.wait == Wait::Angle || self.wait == Wait::Hall
                || self.wait == Wait::Storage || self.wait == Wait::Laser,
            SweepPhase::Completing => self.wait == Wait::StopReply || self.wait == Wait::Halt,
            SweepPhase::Aborting => self.wait == Wait::Halt,
        }
        &&& self.pulses_done <= 2 * (u32::MAX as int)
        &&& (self.wait == Wait::Angle ==> self.pulses_done <= u32::MAX)
        &&& (self.phase == SweepPhase::Starting ==> self.pulses_done == 0)
    }

    /// No sweep under way.
    pub fn new() -> (r: Sweep)
        ensures
            r.wf(),
            r.phase == SweepPhase::Idle,
    {
        Sweep {
            phase: SweepPhase::Idle,
            wait: Wait::Nothing,
            project_id: 0,
            angle_bits: 0,
            hall: [0i32; 9],
            step_pulse: 0,
            pulses_per_revolution: 0,
            pulses_done: 0,
            full_turn: false,
        }
    }
    /// Takes one event: moves to the next state and returns the actions to
    /// carry out, in order, as `sweep_next` states.
    pub fn step(&mut self, event: SweepEvent) -> (r: Vec<SweepAction>)
        requires
            old(self).wf(),
        ensures
            final(self).wf(),
            (*final(self), r@) == sweep_next(*old(self), event),
    {
        let ghost s0 = *self;
        let r: Vec<SweepAction> = match event {
            SweepEvent::Start { step_pulse, pulses_per_revolution } => {
                if self.phase == SweepPhase::Idle {
                    self.phase = SweepPhase::Starting;
                    self.wait = Wait::MotorStart;
                    self.step_pulse = step_pulse;
                    self.pulses_per_revolution = pulses_per_revolution;
                    self.pulses_done = 0;
                    self.full_turn = false;
                    vec![SweepAction::ResetCancel, SweepAction::Motor(MotorCommand::StartSweep)]
                } else {
                    Vec::new()
                }
            },
            SweepEvent::MotorReplied(reply) => {
                if self.wait == Wait::MotorStart {
                    match reply {
                        Ok(_) => {
                            self.wait = Wait::Project;
                            vec![SweepAction::CreateProject]
                        },
                        Err(err) => {
                            self.phase = SweepPhase::Idle;
                            self.wait = Wait::Nothing;
                            vec![SweepAction::Notify(Notice::StartFailed(err))]
                        },
                    }
                } else if self.wait == Wait::StopReply {
                    let notice = match reply {
                        Ok(_) => if self.full_turn {
                            Notice::Completed
                        } else {
                            Notice::Stopped
                        },
                        Err(err) => Notice::StopFailed(err),
                    };
                    self.wait = Wait::Halt;
                    vec![SweepAction::Notify(notice), SweepAction::Halt]
                } else {
                    Vec::new()
                }
            },
            SweepEvent::ProjectCreated(created) => {
                if self.wait == Wait::Project {
                    match created {
                        Ok(id) => {
                            self.phase = SweepPhase::Running;
                            self.wait = Wait::Angle;
                            self.project_id = id;
                            vec![SweepAction::StartListener]
                        },
                        Err(_) => {
                            self.phase = SweepPhase::Idle;
                            self.wait = Wait::Nothing;
                            vec![SweepAction::Notify(Notice::ProjectFailed)]
                        },
                    }
                } else {
                    Vec::new()
                }
            },
            SweepEvent::Angle(a) => {
                if self.phase == SweepPhase::Running && self.wait == Wait::Angle {
                    self.wait = Wait::Hall;
                    self.angle_bits = a;
                    self.pulses_done = self.pulses_done + self.step_pulse as u64;
                    vec![SweepAction::RequestHall]
                } else {
                    Vec::new()
                }
            },
            SweepEvent::ListenerTimedOut => {
                if self.phase == SweepPhase::Running {
                    self.phase = SweepPhase::Aborting;
                    self.wait = Wait::Halt;
                    vec![SweepAction::Notify(Notice::MotorUnresponsive), SweepAction::Halt]
                } else {
                    Vec::new()
                }
            },
            SweepEvent::Cancelled => {
                if self.phase == SweepPhase::Starting || self.phase == SweepPhase::Running {
                    self.phase = SweepPhase::Completing;
                    self.wait = Wait::StopReply;
                    self.full_turn = false;
                    vec![SweepAction::Motor(MotorCommand::StopSweep)]
                } else {
                    Vec::new()
                }
            },
            SweepEvent::HallSampled(sampled) => {
                if self.phase == SweepPhase::Running && self.wait == Wait::Hall {
                    match sampled {
                        Ok(h) => {
                            self.wait = Wait::Storage;
                            self.hall = h;
                            let sample = Payload { angle_bits: self.angle_bits, data: h };
                            vec![
                                SweepAction::AppendSample { project_id: self.project_id, sample },
                            ]
                        },
                        Err(err) => {
                            self.phase = SweepPhase::Aborting;
                            self.wait = Wait::Halt;
                            vec![SweepAction::Notify(Notice::HallFailed(err)), SweepAction::Halt]
                        },
                    }
                } else {
                    Vec::new()
                }
            },
            SweepEvent::Stored(outcome) => {
                if self.phase == SweepPhase::Running && self.wait == Wait::Storage {
                    self.wait = Wait::Laser;
                    let sample = Payload { angle_bits: self.angle_bits, data: self.hall };
                    let mut acts: Vec<SweepAction> = Vec::new();
                    if outcome.is_err() {
                        acts.push(SweepAction::Notify(Notice::SampleNotStored));
                    }
                    acts.push(SweepAction::PushTelemetry(sample));
                    acts.push(SweepAction::LogHall(sample));
                    acts.push(SweepAction::RequestLaser(self.angle_bits));
                    acts
                } else {
                    Vec::new()
                }
            },
            SweepEvent::LaserSampled(sampled) => {
                if self.phase == SweepPhase::Running && self.wait == Wait::Laser {
                    match sampled {
                        Ok(_) => {
                            if self.pulses_done >= self.pulses_per_revolution as u64 {
                                self.phase = SweepPhase::Completing;
                                self.wait = Wait::StopReply;
                                self.full_turn = true;
                                vec![
                                    SweepAction::LogLaser(self.angle_bits),
                                    SweepAction::Motor(MotorCommand::StopSweep),
                                ]
                            } else {
                                self.wait = Wait::Angle;
                                vec![SweepAction::LogLaser(self.angle_bits)]
                            }
                        },
                        Err(err) => {
                            self.phase = SweepPhase::Aborting;
                            self.wait = Wait::Halt;
                            vec![SweepAction::Notify(Notice::LaserFailed(err)), SweepAction::Halt]
                        },
                    }
                } else {
                    Vec::new()
                }
            },
            SweepEvent::Halted => {
                if self.wait == Wait::Halt {
                    self.phase = SweepPhase::Idle;
                    self.wait = Wait::Nothing;
                }
                Vec::new()
            },
        };
        proof {
            let expected = sweep_next(s0, event);
            assert(r@ =~= expected.1);
        }
        r
    }
}

/// The final state and all actions after a series of events, in order.
pub open spec fn sweep_run(s: Sweep, events: Seq<SweepEvent>) -> (Sweep, Seq<SweepAction>)
    decreases events.len(),
{
    if events.len() == 0 {
        (s, Seq::empty())
    } else {
        let (next, first) = sweep_next(s, events[0]);
        let (last, rest) = sweep_run(next, events.drop_first());
        (last, first + rest)
    }
}

/// Whether some action of `acts` appends a sample to the record.
pub open spec fn has_append(acts: Seq<SweepAction>) -> bool {
    exists|i: int| 0 <= i < acts.len() && #[trigger] acts[i] is AppendSample
}

/// A sweep that is stopping, or over.
pub open spec fn winding_down(s: Sweep) -> bool {
    s.phase == SweepPhase::Completing || s.phase == SweepPhase::Aborting || s.phase
        == SweepPhase::Idle
}

/// Every event keeps a well-formed sweep well-formed.
pub proof fn lemma_next_keeps_wf(s: Sweep, e: SweepEvent)
    requires
        s.wf(),
    ensures
        sweep_next(s, e).0.wf(),
{
}

proof fn lemma_winding_down_run(s: Sweep, events: Seq<SweepEvent>)
    requires
        s.wf(),
        winding_down(s),
        forall|i: int| 0 <= i < events.len() ==> !(#[trigger] events[i] is Start),
    ensures
        winding_down(sweep_run(s, events).0),
        !has_append(sweep_run(s, events).1),
    decreases events.len(),
{
    if events.len() > 0 {
        let (next, first) = sweep_next(s, events[0]);
        lemma_next_keeps_wf(s, events[0]);
        assert(!(events[0] is Start));
        assert(!has_append(first));
        let tail = events.drop_first();
        assert forall|i: int| 0 <= i < tail.len() implies !(#[trigger] tail[i] is Start) by {
            assert(tail[i] == events[i + 1]);
        }
        lemma_winding_down_run(next, tail);
        let rest = sweep_run(next, tail).1;
        if has_append(first + rest) {
            let i = choose|i: int| 0 <= i < (first + rest).len() && #[trigger] (first + rest)[i] is AppendSample;
            if i >= first.len() {
                assert(rest[i - first.len()] is AppendSample);
            } else {
                assert(first[i] is AppendSample);
            }
        }
    }
}

/// Cancelling a running sweep moves it to `Completing` and sends the stop
/// command; from then on, until another start, no sample is appended to the
/// record, whatever events arrive. The stop reply (its deadline is shorter
/// than one angle wait) and the end of the tasks bring the sweep to `Idle`.
pub proof fn lemma_cancel_stops_sampling(
    s: Sweep,
    events: Seq<SweepEvent>,
    reply: Result<u32, ProtocolError>,
)
    requires
        s.wf(),
        s.phase == SweepPhase::Running,
        forall|i: int| 0 <= i < events.len() ==> !(#[trigger] events[i] is Start),
    ensures
        sweep_next(s, SweepEvent::Cancelled).0.phase == SweepPhase::Completing,
        sweep_next(s, SweepEvent::Cancelled).1 == seq![SweepAction::Motor(MotorCommand::StopSweep)],
        !has_append(sweep_run(sweep_next(s, SweepEvent::Cancelled).0, events).1),
        sweep_run(
            sweep_next(s, SweepEvent::Cancelled).0,
            seq![SweepEvent::MotorReplied(reply), SweepEvent::Halted],
        ).0.phase == SweepPhase::Idle,
        MotorCommand::StopSweep.timeout_spec() < ANGLE_WAIT_TIMEOUT_MS,
{
    let t = sweep_next(s, SweepEvent::Cancelled).0;
    lemma_next_keeps_wf(s, SweepEvent::Cancelled);
    lemma_winding_down_run(t, events);
    let two = seq![SweepEvent::MotorReplied(reply), SweepEvent::Halted];
    let m = sweep_next(t, two[0]).0;
    assert(m.wait == Wait::Halt);
    let one = two.drop_first();
    assert(one =~= seq![SweepEvent::Halted]);
    assert(one.drop_first() =~= Seq::<SweepEvent>::empty());
    assert(sweep_run(sweep_next(m, one[0]).0, one.drop_first()).0 == sweep_next(m, one[0]).0);
    assert(sweep_run(m, one).0 == sweep_next(m, SweepEvent::Halted).0);
    assert(sweep_run(t, two).0 == sweep_run(m, one).0);
}

} // verus!
