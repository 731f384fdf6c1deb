//! The controller that polls the sensors and drives the communicator and
//! the actuators.
use crate::cycle::{executes_nothing, sends_nothing, Plan, Stage, StageView, Step};
use crate::traits::actuator::Actuator;
use crate::traits::communicator::Communicator;
use crate::traits::sensor::Sensor;
use vstd::prelude::*;

verus! {

/// Why a controller could not be built.
#[derive(Debug, Clone, Copy, PartialEq, Eq, Structural)]
pub enum ConfigError {
    /// The poll interval was zero seconds, which would make the loop spin.
    ZeroInterval,
}

/// A pause of a positive number of whole seconds.
struct Pause {
    seconds: u64,
}

impl Pause {
    #[verifier::type_invariant]
    spec fn positive(&self) -> bool {
        self.seconds > 0
    }
}

/// Owns the devices of a node and runs the polling cycle over them.
///
/// The sensors and the actuators keep the order in which they were given.
/// There is exactly one communicator, of type `C`; a boxed trait object
/// serves where the channel is chosen at startup. The poll interval is a
/// positive number of whole seconds.
pub struct RuntimeController<C: Communicator> {
    sensors: Vec<Box<dyn Sensor>>,
    actuators: Vec<Box<dyn Actuator>>,
    communicator: C,
    interval: Pause,
}

impl<C: Communicator> RuntimeController<C> {
    /// The sensors, in registration order.
    pub closed spec fn sensors(&self) -> Seq<Box<dyn Sensor>> {
        self.sensors@
    }

    /// The actuators, in registration order.
    pub closed spec fn actuators(&self) -> Seq<Box<dyn Actuator>> {
        self.actuators@
    }

    /// The communicator.
    pub closed spec fn communicator(&self) -> C {
        self.communicator
    }

    /// The pause between two cycles, in seconds.
    pub closed spec fn spec_interval(&self) -> u64 {
        self.interval.seconds
    }

    /// The numbers of sensors and actuators.
    pub open spec fn spec_plan(&self) -> Plan {
        Plan { sensors: self.sensors().len() as usize, actuators: self.actuators().len() as usize }
    }

    /// Whether `self` holds what `before` held, but for the one device that
    /// `stage` names: only that device may have changed.
    pub open spec fn differs_only_at(&self, before: &Self, stage: StageView) -> bool {
        &&& self.spec_interval() == before.spec_interval()
        &&& self.sensors().len() == before.sensors().len()
        &&& self.actuators().len() == before.actuators().len()
        &&& forall|i: int|
            0 <= i < before.sensors().len() && stage != (StageView::Read { sensor: i })
                ==> #[trigger] self.sensors()[i] == before.sensors()[i]
        &&& forall|j: int|
            0 <= j < before.actuators().len() && !(stage matches StageView::Execute {
                actuator,
                ..
            } && actuator == j) ==> #[trigger] self.actuators()[j] == before.actuators()[j]
        &&& !(stage is Send) ==> self.communicator() == before.communicator()
    }

    /// A controller over the given devices that pauses `interval` seconds
    /// between two cycles. No list of actuators is the same as an empty one.
    /// An interval of zero is rejected.
    pub fn new(
        sensors: Vec<Box<dyn Sensor>>,
        actuators: Option<Vec<Box<dyn Actuator>>>,
        communicator: C,
        interval: u64,
    ) -> (made: Result<Self, ConfigError>)
        ensures
            interval == 0 ==> made == Err::<Self, ConfigError>(ConfigError::ZeroInterval),
            interval > 0 ==> made is Ok,
            made matches Ok(controller) ==> {
                &&& controller.sensors() == sensors@
                &&& controller.actuators() == match actuators {
                    Some(list) => list@,
                    None => Seq::empty(),
                }
                &&& controller.communicator() == communicator
                &&& controller.spec_interval() == interval
            },
    {
        if interval == 0 {
            return Err(ConfigError::ZeroInterval);
        }
        let actuators = match actuators {
            Some(list) => list,
            None => Vec::new(),
        };
        Ok(
            RuntimeController {
                sensors,
                actuators,
                communicator,
                interval: Pause { seconds: interval },
            },
        )
    }

    /// The pause between two cycles, in seconds: never zero.
    pub fn interval(&self) -> (seconds: u64)
        ensures
            seconds == self.spec_interval(),
            seconds > 0,
    {
        proof {
            use_type_invariant(&self.interval);
        }
        self.interval.seconds
    }

    /// The numbers of sensors and actuators that a cycle runs over.
    pub fn plan(&self) -> (plan: Plan)
        ensures
            plan == self.spec_plan(),
    {
        Plan { sensors: self.sensors.len(), actuators: self.actuators.len() }
    }

    /// Makes the one device call that `stage` names and returns it with the
    /// device's answer. Nothing is called, and `None` returned, for the pause
    /// and for a stage that names a device the controller does not have.
    ///
    /// A read calls the sensor; a send hands the stage's value to the
    /// communicator; an execution hands it to the actuator.
    pub fn perform(&mut self, stage: Stage) -> (step: Option<Step>)
        ensures
            step is Some <==> old(self).spec_plan().admits(stage@) && !(stage@ is Sleep),
            step matches Some(done) ==> done.stage() == stage@,
            step is None ==> *final(self) == *old(self),
            final(self).differs_only_at(old(self), stage@),
    {
        match stage {
            Stage::Read { sensor } => {
                if sensor < self.sensors.len() {
                    let reading = self.sensors[sensor].read();
                    Some(Step::Read { sensor, reading })
                } else {
                    None
                }
            },
            Stage::Send { sensor, value } => {
                if sensor < self.sensors.len() {
                    let response = self.communicator.send(value.clone());
                    Some(Step::Send { sensor, payload: value, response })
                } else {
                    None
                }
            },
            Stage::Execute { sensor, actuator, value } => {
                if sensor < self.sensors.len() && actuator < self.actuators.len() {
                    let outcome = self.actuators[actuator].execute(value.clone());
                    Some(Step::Execute { sensor, actuator, payload: value, outcome })
                } else {
                    None
                }
            },
            Stage::Sleep => None,
        }
    }

    /// Runs one cycle and returns the calls it made, in the order in which
    /// it made them, each with the device's answer.
    ///
    /// Every sensor is read once, in registration order. A value that was
    /// read goes to the communicator and then to every actuator in
    /// registration order, whatever the communicator and the actuators
    /// before it answered. A sensor that fails is passed over for this cycle.
    /// Without sensors nothing is called. A device that the log does not
    /// name is left as it was.
    pub fn run_cycle(&mut self) -> (log: Vec<Step>)
        ensures
            old(self).spec_plan().is_cycle(log@),
            old(self).spec_plan().sensors == 0 ==> log@.len() == 0 && *final(self) == *old(self),
            final(self).spec_plan() == old(self).spec_plan(),
            final(self).spec_interval() == old(self).spec_interval(),
            sends_nothing(log@) ==> final(self).communicator() == old(self).communicator(),
            executes_nothing(log@) ==> final(self).actuators() == old(self).actuators(),
    {
        let plan = self.plan();
        let mut log: Vec<Step> = Vec::new();
        let mut stage = plan.first();
        loop
            invariant_except_break
                plan.is_run(log@),
                stage@ == plan.due(log@, log@.len() as int),
                plan.admits(stage@),
            invariant
                plan == old(self).spec_plan(),
                self.spec_plan() == plan,
                self.spec_interval() == old(self).spec_interval(),
                plan.sensors == 0 ==> log@.len() == 0 && *self == *old(self),
                sends_nothing(log@) ==> self.communicator() == old(self).communicator(),
                executes_nothing(log@) ==> self.actuators() == old(self).actuators(),
            ensures
                plan.is_cycle(log@),
            decreases plan.sensors_left(stage@), plan.calls_left(stage@),
        {
            let ghost earlier = log@;
            let ghost actuators = self.actuators();
            match self.perform(stage) {
                Some(step) => {
                    stage = plan.next(&step);
                    log.push(step);
                    proof {
                        let last: int = earlier.len() as int;
                        if sends_nothing(log@) {
                            assert(!(log@[last] is Send));
                            assert forall|k: int| 0 <= k < earlier.len() implies !(
                            #[trigger] earlier[k] is Send) by {
                                assert(!(log@[k] is Send));
                            }
                        }
                        if executes_nothing(log@) {
                            assert(!(log@[last] is Execute));
                            assert forall|k: int| 0 <= k < earlier.len() implies !(
                            #[trigger] earlier[k] is Execute) by {
                                assert(!(log@[k] is Execute));
                            }
                            assert(self.actuators() =~= actuators);
                        }
                    }
                },
                None => {
                    break ;
                },
            }
        }
        log
    }
}

} // verus!
