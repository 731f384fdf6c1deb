//! The order of the device calls in one polling cycle.
//!
//! A cycle is a walk through [`Stage`]s: every sensor is read in
//! registration order; a value that was read is handed to the communicator
//! and then to every actuator in registration order; a read that failed
//! leads straight to the next sensor. What the communicator or an actuator
//! answers has no bearing on the stage that follows. When the last sensor is
//! done the cycle ends in [`Stage::Sleep`].
//!
//! [`Plan::next`] is the transition function, [`Plan::is_cycle`] says when a
//! sequence of [`Step`]s is a complete cycle, and the proof functions at the
//! end of this file state what holds of every complete cycle.
use crate::traits::actuator::ActuatorError;
use crate::traits::communicator::{CommunicatorError, Response};
use crate::traits::sensor::SensorError;
use crate::types::{SensorOutput, Value};
use vstd::prelude::*;

verus! {

/// How many sensors and actuators a cycle runs over.
#[derive(Debug, Clone, Copy, PartialEq, Eq, Structural)]
pub struct Plan {
    pub sensors: usize,
    pub actuators: usize,
}

/// The device call that is due, or the pause between two cycles.
#[derive(Debug, PartialEq, Eq)]
pub enum Stage {
    /// The sensor at this index is to be read.
    Read { sensor: usize },
    /// `value`, read from `sensor`, is to be handed to the communicator.
    Send { sensor: usize, value: SensorOutput },
    /// `value`, read from `sensor`, is to be handed to the actuator at index
    /// `actuator`.
    Execute { sensor: usize, actuator: usize, value: SensorOutput },
    /// Every sensor is done: the controller pauses for its interval.
    Sleep,
}

/// The mathematical content of a [`Stage`].
pub enum StageView {
    Read { sensor: int },
    Send { sensor: int, value: Value },
    Execute { sensor: int, actuator: int, value: Value },
    Sleep,
}

impl View for Stage {
    type V = StageView;

    open spec fn view(&self) -> StageView {
        match *self {
            Stage::Read { sensor } => StageView::Read { sensor: sensor as int },
            Stage::Send { sensor, value } => StageView::Send { sensor: sensor as int, value: value@ },
            Stage::Execute { sensor, actuator, value } => StageView::Execute {
                sensor: sensor as int,
                actuator: actuator as int,
                value: value@,
            },
            Stage::Sleep => StageView::Sleep,
        }
    }
}

/// A device call that was made, with what the device answered.
#[derive(Debug, PartialEq, Eq)]
pub enum Step {
    /// The sensor at index `sensor` was read.
    Read { sensor: usize, reading: Result<SensorOutput, SensorError> },
    /// `payload`, read from `sensor`, was handed to the communicator.
    Send { sensor: usize, payload: SensorOutput, response: Result<Response, CommunicatorError> },
    /// `payload`, read from `sensor`, was handed to the actuator at index
    /// `actuator`.
    Execute {
        sensor: usize,
        actuator: usize,
        payload: SensorOutput,
        outcome: Result<(), ActuatorError>,
    },
}

impl Step {
    /// The stage that this step carried out.
    pub open spec fn stage(self) -> StageView {
        match self {
            Step::Read { sensor, .. } => StageView::Read { sensor: sensor as int },
            Step::Send { sensor, payload, .. } => StageView::Send {
                sensor: sensor as int,
                value: payload@,
            },
            Step::Execute { sensor, actuator, payload, .. } => StageView::Execute {
                sensor: sensor as int,
                actuator: actuator as int,
                value: payload@,
            },
        }
    }

    /// The index of the sensor that this step belongs to.
    pub open spec fn sensor(self) -> int {
        match self {
            Step::Read { sensor, .. } => sensor as int,
            Step::Send { sensor, .. } => sensor as int,
            Step::Execute { sensor, .. } => sensor as int,
        }
    }

    /// The value that this step handed to a device: none for a read.
    pub open spec fn payload(self) -> Option<Value> {
        match self {
            Step::Read { .. } => None,
            Step::Send { payload, .. } => Some(payload@),
            Step::Execute { payload, .. } => Some(payload@),
        }
    }

    /// Whether the device answered with an error.
    pub open spec fn failed(self) -> bool {
        match self {
            Step::Read { reading, .. } => reading is Err,
            Step::Send { response, .. } => response is Err,
            Step::Execute { outcome, .. } => outcome is Err,
        }
    }
}

/// Whether nothing was handed to the communicator in `log`.
pub open spec fn sends_nothing(log: Seq<Step>) -> bool {
    forall|k: int| 0 <= k < log.len() ==> !(#[trigger] log[k] is Send)
}

/// Whether no actuator was reached in `log`.
pub open spec fn executes_nothing(log: Seq<Step>) -> bool {
    forall|k: int| 0 <= k < log.len() ==> !(#[trigger] log[k] is Execute)
}

impl Plan {
    /// The read of the sensor at index `sensor` if there is such a sensor,
    /// the pause otherwise.
    pub open spec fn read_or_sleep(self, sensor: int) -> StageView {
        if 0 <= sensor < self.sensors {
            StageView::Read { sensor }
        } else {
            StageView::Sleep
        }
    }

    /// The stage a cycle begins with.
    pub open spec fn spec_first(self) -> StageView {
        self.read_or_sleep(0)
    }

    /// The stage that follows `step`.
    pub open spec fn spec_next(self, step: Step) -> StageView {
        match step {
            Step::Read { sensor, reading: Ok(value) } => StageView::Send {
                sensor: sensor as int,
                value: value@,
            },
            Step::Read { sensor, reading: Err(_) } => self.read_or_sleep(sensor + 1),
            Step::Send { sensor, payload, .. } => if self.actuators > 0 {
                StageView::Execute { sensor: sensor as int, actuator: 0, value: payload@ }
            } else {
                self.read_or_sleep(sensor + 1)
            },
            Step::Execute { sensor, actuator, payload, .. } => if actuator + 1 < self.actuators {
                StageView::Execute {
                    sensor: sensor as int,
                    actuator: actuator + 1,
                    value: payload@,
                }
            } else {
                self.read_or_sleep(sensor + 1)
            },
        }
    }

    /// Whether `stage` is the pause or names devices that the plan has.
    pub open spec fn admits(self, stage: StageView) -> bool {
        match stage {
            StageView::Read { sensor } => 0 <= sensor < self.sensors,
            StageView::Send { sensor, .. } => 0 <= sensor < self.sensors,
            StageView::Execute { sensor, actuator, .. } => 0 <= sensor < self.sensors && 0
                <= actuator < self.actuators,
            StageView::Sleep => true,
        }
    }

    /// How many sensors are not done yet when `stage` is due.
    pub open spec fn sensors_left(self, stage: StageView) -> int {
        match stage {
            StageView::Read { sensor } => self.sensors - sensor,
            StageView::Send { sensor, .. } => self.sensors - sensor,
            StageView::Execute { sensor, .. } => self.sensors - sensor,
            StageView::Sleep => 0,
        }
    }

    /// How many calls the sensor of `stage` can still give rise to, the call
    /// of `stage` included.
    pub open spec fn calls_left(self, stage: StageView) -> int {
        match stage {
            StageView::Read { .. } => self.actuators + 2,
            StageView::Send { .. } => self.actuators + 1,
            StageView::Execute { actuator, .. } => self.actuators - actuator,
            StageView::Sleep => 0,
        }
    }

    /// The stage that is due when the first `k` steps of `log` are done.
    pub open spec fn due(self, log: Seq<Step>, k: int) -> StageView {
        if k <= 0 {
            self.spec_first()
        } else {
            self.spec_next(log[k - 1])
        }
    }

    /// Whether `log` is the beginning of a cycle: every step carries out the
    /// stage that was due.
    pub open spec fn is_run(self, log: Seq<Step>) -> bool {
        forall|k: int| 0 <= k < log.len() ==> #[trigger] log[k].stage() == self.due(log, k)
    }

    /// Whether `log` is one complete cycle: a run after which the pause is
    /// due.
    pub open spec fn is_cycle(self, log: Seq<Step>) -> bool {
        self.is_run(log) && self.due(log, log.len() as int) is Sleep
    }

    /// The stage a cycle begins with: the read of the first sensor, or the
    /// pause where there is no sensor.
    pub fn first(&self) -> (stage: Stage)
        ensures
            stage@ == self.spec_first(),
    {
        if self.sensors > 0 {
            Stage::Read { sensor: 0 }
        } else {
            Stage::Sleep
        }
    }

    /// The stage that is due once the sensor at index `sensor` is done.
    fn after_sensor(&self, sensor: usize) -> (stage: Stage)
        ensures
            stage@ == self.read_or_sleep(sensor + 1),
    {
        if sensor < usize::MAX && sensor + 1 < self.sensors {
            Stage::Read { sensor: sensor + 1 }
        } else {
            Stage::Sleep
        }
    }

    /// The stage that follows `step`, whatever the device answered to a
    /// payload; a read leads to the send of its value, or to the next sensor
    /// where it failed.
    pub fn next(&self, step: &Step) -> (stage: Stage)
        ensures
            stage@ == self.spec_next(*step),
    {
        match step {
            Step::Read { sensor, reading } => match reading {
                Ok(value) => Stage::Send { sensor: *sensor, value: value.clone() },
                Err(_) => self.after_sensor(*sensor),
            },
            Step::Send { sensor, payload, .. } => {
                if self.actuators > 0 {
                    Stage::Execute { sensor: *sensor, actuator: 0, value: payload.clone() }
                } else {
                    self.after_sensor(*sensor)
                }
            },
            Step::Execute { sensor, actuator, payload, .. } => {
                if *actuator < usize::MAX && *actuator + 1 < self.actuators {
                    Stage::Execute {
                        sensor: *sensor,
                        actuator: *actuator + 1,
                        value: payload.clone(),
                    }
                } else {
                    self.after_sensor(*sensor)
                }
            },
        }
    }
}

/// Every stage that becomes due in a run is the pause or names devices that
/// the plan has.
pub proof fn lemma_due_is_admitted(plan: Plan, log: Seq<Step>, k: int)
    requires
        plan.is_run(log),
        0 <= k <= log.len(),
    ensures
        plan.admits(plan.due(log, k)),
    decreases k,
{
    if k > 0 {
        lemma_due_is_admitted(plan, log, k - 1);
        assert(log[k - 1].stage() == plan.due(log, k - 1));
    }
}

/// A cycle over no sensors makes no call at all: it only pauses, and the
/// communicator is never reached.
pub proof fn lemma_idle_cycle(plan: Plan, log: Seq<Step>)
    requires
        plan.is_cycle(log),
        plan.sensors == 0,
    ensures
        log.len() == 0,
{
    if log.len() > 0 {
        assert(log[0].stage() == plan.due(log, 0));
    }
}

/// A sensor that fails does not keep the next one from being read: the step
/// after a failed read is the read of the sensor registered next, and where
/// the last sensor failed the cycle is over.
pub proof fn lemma_read_failure_is_isolated(plan: Plan, log: Seq<Step>, k: int)
    requires
        plan.is_cycle(log),
        0 <= k < log.len(),
        log[k] is Read,
        log[k].failed(),
    ensures
        log[k].sensor() + 1 < plan.sensors ==> k + 1 < log.len() && log[k + 1].stage()
            == (StageView::Read { sensor: log[k].sensor() + 1 }),
        log[k].sensor() + 1 >= plan.sensors ==> k + 1 == log.len(),
{
    if k + 1 < log.len() {
        assert(log[k + 1].stage() == plan.due(log, k + 1));
    }
}

/// A value that was read is handed to the communicator in the very next
/// step.
pub proof fn lemma_value_is_sent(plan: Plan, log: Seq<Step>, k: int)
    requires
        plan.is_cycle(log),
        0 <= k < log.len(),
        log[k] is Read,
        !log[k].failed(),
    ensures
        k + 1 < log.len(),
        log[k] matches Step::Read { sensor, reading: Ok(value) } && log[k + 1].stage()
            == (StageView::Send { sensor: sensor as int, value: value@ }),
{
    if k + 1 < log.len() {
        assert(log[k + 1].stage() == plan.due(log, k + 1));
    }
}

/// What the communicator answers does not keep any actuator from receiving
/// the value: after a send, failed or not, the steps that follow hand the
/// same value to every actuator in registration order, whatever the
/// actuators before it answered.
pub proof fn lemma_send_failure_is_isolated(plan: Plan, log: Seq<Step>, k: int, actuator: int)
    requires
        plan.is_cycle(log),
        0 <= k < log.len(),
        log[k] is Send,
        0 <= actuator < plan.actuators,
    ensures
        k + 1 + actuator < log.len(),
        log[k] matches Step::Send { sensor, payload, .. } && log[k + 1 + actuator].stage()
            == (StageView::Execute { sensor: sensor as int, actuator, value: payload@ }),
    decreases actuator,
{
    if actuator > 0 {
        lemma_send_failure_is_isolated(plan, log, k, actuator - 1);
    }
    if k + 1 + actuator < log.len() {
        assert(log[k + 1 + actuator].stage() == plan.due(log, k + 1 + actuator));
    }
}

/// An actuator that fails does not keep the actuators after it from
/// executing: after an execution, failed or not, the steps that follow hand
/// the same value to every actuator registered later, in registration
/// order.
pub proof fn lemma_actuator_failure_is_isolated(plan: Plan, log: Seq<Step>, k: int, later: int)
    requires
        plan.is_cycle(log),
        0 <= k < log.len(),
        log[k] matches Step::Execute { actuator, .. } && actuator < later < plan.actuators,
    ensures
        log[k] matches Step::Execute { sensor, actuator, payload, .. } && k + later - actuator
            < log.len() && log[k + later - actuator].stage() == (StageView::Execute {
            sensor: sensor as int,
            actuator: later,
            value: payload@,
        }),
    decreases later,
{
    let done: int = log[k]->Execute_actuator as int;
    if later > done + 1 {
        lemma_actuator_failure_is_isolated(plan, log, k, later - 1);
    }
    let at: int = k + later - done;
    if at < log.len() {
        assert(log[at].stage() == plan.due(log, at));
    }
}

/// The steps of a run follow the registration order of the sensors: the
/// sensor of a later step is never registered before the sensor of an
/// earlier one, and a read or a send is always for a sensor registered after
/// that of every earlier read or send. So no sensor is read twice, and the
/// communicator receives the values in the order of their sensors.
pub proof fn lemma_registration_order(plan: Plan, log: Seq<Step>, a: int, b: int)
    requires
        plan.is_run(log),
        0 <= a < b < log.len(),
    ensures
        log[a].sensor() <= log[b].sensor(),
        log[b] is Read ==> log[a].sensor() < log[b].sensor(),
        log[a] is Send && log[b] is Send ==> log[a].sensor() < log[b].sensor(),
    decreases b - a,
{
    assert(log[b].stage() == plan.due(log, b));
    if a < b - 1 {
        lemma_registration_order(plan, log, a, b - 1);
        if b - 1 > 0 {
            assert(log[b - 1].stage() == plan.due(log, b - 1));
        }
    }
}

/// From any step of a cycle on, the steps stay with the same sensor until
/// the read of the sensor registered next, or the pause, is due.
proof fn lemma_sensor_is_left(plan: Plan, log: Seq<Step>, k: int) -> (end: int)
    requires
        plan.is_cycle(log),
        0 <= k < log.len(),
    ensures
        k < end <= log.len(),
        plan.due(log, end) == plan.read_or_sleep(log[k].sensor() + 1),
    decreases plan.calls_left(log[k].stage()),
{
    lemma_due_is_admitted(plan, log, k);
    lemma_due_is_admitted(plan, log, k + 1);
    assert(log[k].stage() == plan.due(log, k));
    if plan.due(log, k + 1) == plan.read_or_sleep(log[k].sensor() + 1) {
        k + 1
    } else {
        assert(log[k + 1].stage() == plan.due(log, k + 1));
        lemma_sensor_is_left(plan, log, k + 1)
    }
}

/// Every sensor is read in every cycle.
pub proof fn lemma_every_sensor_is_read(plan: Plan, log: Seq<Step>, sensor: int) -> (k: int)
    requires
        plan.is_cycle(log),
        0 <= sensor < plan.sensors,
    ensures
        0 <= k < log.len(),
        log[k].stage() == (StageView::Read { sensor }),
    decreases sensor,
{
    if sensor == 0 {
        if log.len() > 0 {
            assert(log[0].stage() == plan.due(log, 0));
        }
        0
    } else {
        let before: int = lemma_every_sensor_is_read(plan, log, sensor - 1);
        let k: int = lemma_sensor_is_left(plan, log, before);
        if k < log.len() {
            assert(log[k].stage() == plan.due(log, k));
        }
        k
    }
}

/// No step keeps a later sensor from being read: whatever a sensor, the
/// communicator or an actuator answered in step `k`, every sensor registered
/// after the sensor of that step is read later in the same cycle.
pub proof fn lemma_later_sensor_is_read(plan: Plan, log: Seq<Step>, k: int, later: int) -> (at:
    int)
    requires
        plan.is_cycle(log),
        0 <= k < log.len(),
        log[k].sensor() < later < plan.sensors,
    ensures
        k < at < log.len(),
        log[at].stage() == (StageView::Read { sensor: later }),
{
    let at: int = lemma_every_sensor_is_read(plan, log, later);
    if at < k {
        lemma_registration_order(plan, log, at, k);
    }
    at
}

/// Nothing but what was read is handed on: the value of every send and of
/// every execution is the value that an earlier step of the same run read
/// from the same sensor.
pub proof fn lemma_payload_was_read(plan: Plan, log: Seq<Step>, k: int) -> (origin: int)
    requires
        plan.is_run(log),
        0 <= k < log.len(),
        !(log[k] is Read),
    ensures
        0 <= origin < k,
        log[origin] matches Step::Read { sensor, reading: Ok(value) } && sensor
            == log[k].sensor() && log[k].payload() == Some(value@),
    decreases k,
{
    assert(log[k].stage() == plan.due(log, k));
    if log[k - 1] is Read {
        k - 1
    } else {
        lemma_payload_was_read(plan, log, k - 1)
    }
}

/// A sensor whose read failed gives rise to no other call in that cycle:
/// nothing is sent and no actuator is reached for it.
pub proof fn lemma_failed_sensor_is_passed_over(plan: Plan, log: Seq<Step>, k: int, other: int)
    requires
        plan.is_cycle(log),
        0 <= k < log.len(),
        log[k] is Read,
        log[k].failed(),
        0 <= other < log.len(),
        other != k,
    ensures
        log[other].sensor() != log[k].sensor(),
{
    if other < k {
        lemma_registration_order(plan, log, other, k);
    } else {
        lemma_read_failure_is_isolated(plan, log, k);
        if other > k + 1 {
            lemma_registration_order(plan, log, k + 1, other);
        }
    }
}

} // verus!
