use iot_framework::cycle::{Plan, Stage, Step};
use iot_framework::traits::actuator::ActuatorError;
use iot_framework::traits::communicator::CommunicatorError;
use iot_framework::traits::sensor::SensorError;
use iot_framework::types::SensorOutput;

fn text(s: &str) -> SensorOutput {
    SensorOutput::Text(s.to_string())
}

fn read_error(s: &str) -> SensorError {
    SensorError::ReadError(s.to_string())
}

#[test]
fn first_stage_reads_first_sensor() {
    let plan = Plan { sensors: 2, actuators: 1 };
    assert_eq!(plan.first(), Stage::Read { sensor: 0 });
}

#[test]
fn first_stage_without_sensors_is_sleep() {
    assert_eq!(Plan { sensors: 0, actuators: 0 }.first(), Stage::Sleep);
    assert_eq!(Plan { sensors: 0, actuators: 3 }.first(), Stage::Sleep);
}

#[test]
fn next_after_value_is_send() {
    let plan = Plan { sensors: 2, actuators: 1 };
    let step = Step::Read { sensor: 0, reading: Ok(SensorOutput::Int(7)) };
    assert_eq!(plan.next(&step), Stage::Send { sensor: 0, value: SensorOutput::Int(7) });
}

#[test]
fn next_after_value_of_last_sensor_is_still_send() {
    let plan = Plan { sensors: 2, actuators: 0 };
    let step = Step::Read { sensor: 1, reading: Ok(text("x")) };
    assert_eq!(plan.next(&step), Stage::Send { sensor: 1, value: text("x") });
}

#[test]
fn next_after_failed_read_is_next_sensor() {
    let plan = Plan { sensors: 3, actuators: 2 };
    let step = Step::Read { sensor: 0, reading: Err(read_error("no signal")) };
    assert_eq!(plan.next(&step), Stage::Read { sensor: 1 });
    let step = Step::Read { sensor: 1, reading: Err(read_error("no signal")) };
    assert_eq!(plan.next(&step), Stage::Read { sensor: 2 });
}

#[test]
fn next_after_failed_read_of_last_sensor_is_sleep() {
    let plan = Plan { sensors: 3, actuators: 2 };
    let step = Step::Read { sensor: 2, reading: Err(read_error("no signal")) };
    assert_eq!(plan.next(&step), Stage::Sleep);
}

#[test]
fn next_after_send_is_first_actuator_whatever_the_answer() {
    let plan = Plan { sensors: 2, actuators: 2 };
    let sent = Step::Send { sensor: 0, payload: SensorOutput::Bool(true), response: Ok(()) };
    let failed = Step::Send {
        sensor: 0,
        payload: SensorOutput::Bool(true),
        response: Err(CommunicatorError { message: "broker unreachable".to_string() }),
    };
    let expected = Stage::Execute { sensor: 0, actuator: 0, value: SensorOutput::Bool(true) };
    assert_eq!(plan.next(&sent), expected);
    assert_eq!(plan.next(&failed), expected);
}

#[test]
fn next_after_send_without_actuators_is_next_sensor() {
    let plan = Plan { sensors: 2, actuators: 0 };
    let failed = Step::Send {
        sensor: 0,
        payload: SensorOutput::Int(-4),
        response: Err(CommunicatorError { message: "down".to_string() }),
    };
    assert_eq!(plan.next(&failed), Stage::Read { sensor: 1 });
    let last = Step::Send { sensor: 1, payload: SensorOutput::Int(-4), response: Ok(()) };
    assert_eq!(plan.next(&last), Stage::Sleep);
}

#[test]
fn next_after_execute_is_next_actuator_whatever_the_answer() {
    let plan = Plan { sensors: 1, actuators: 3 };
    let bytes = SensorOutput::Bytes(vec![1, 2, 3]);
    let done = Step::Execute { sensor: 0, actuator: 0, payload: bytes.clone(), outcome: Ok(()) };
    let failed = Step::Execute {
        sensor: 0,
        actuator: 1,
        payload: bytes.clone(),
        outcome: Err(ActuatorError { message: "stuck".to_string() }),
    };
    assert_eq!(
        plan.next(&done),
        Stage::Execute { sensor: 0, actuator: 1, value: bytes.clone() }
    );
    assert_eq!(
        plan.next(&failed),
        Stage::Execute { sensor: 0, actuator: 2, value: bytes.clone() }
    );
}

#[test]
fn next_after_last_actuator_is_next_sensor_or_sleep() {
    let plan = Plan { sensors: 2, actuators: 2 };
    let failed = Step::Execute {
        sensor: 0,
        actuator: 1,
        payload: SensorOutput::Int(1),
        outcome: Err(ActuatorError { message: "stuck".to_string() }),
    };
    assert_eq!(plan.next(&failed), Stage::Read { sensor: 1 });
    let last = Step::Execute {
        sensor: 1,
        actuator: 1,
        payload: SensorOutput::Int(1),
        outcome: Ok(()),
    };
    assert_eq!(plan.next(&last), Stage::Sleep);
}

#[test]
fn next_at_the_largest_indices_does_not_overflow() {
    let plan = Plan { sensors: usize::MAX, actuators: usize::MAX };
    let read = Step::Read { sensor: usize::MAX, reading: Err(read_error("x")) };
    assert_eq!(plan.next(&read), Stage::Sleep);
    let read = Step::Read { sensor: usize::MAX - 1, reading: Err(read_error("x")) };
    assert_eq!(plan.next(&read), Stage::Sleep);
    let read = Step::Read { sensor: usize::MAX - 2, reading: Err(read_error("x")) };
    assert_eq!(plan.next(&read), Stage::Read { sensor: usize::MAX - 1 });
    let run = Step::Execute {
        sensor: 0,
        actuator: usize::MAX,
        payload: SensorOutput::Int(1),
        outcome: Ok(()),
    };
    assert_eq!(plan.next(&run), Stage::Read { sensor: 1 });
}

#[test]
fn walking_the_stages_gives_one_whole_cycle() {
    let plan = Plan { sensors: 2, actuators: 2 };
    let mut stage = plan.first();
    let mut seen: Vec<Stage> = Vec::new();
    while stage != Stage::Sleep {
        let step = match &stage {
            Stage::Read { sensor } => {
                if *sensor == 0 {
                    Step::Read { sensor: *sensor, reading: Ok(SensorOutput::Int(5)) }
                } else {
                    Step::Read { sensor: *sensor, reading: Err(read_error("off")) }
                }
            }
            Stage::Send { sensor, value } => Step::Send {
                sensor: *sensor,
                payload: value.clone(),
                response: Err(CommunicatorError { message: "down".to_string() }),
            },
            Stage::Execute { sensor, actuator, value } => Step::Execute {
                sensor: *sensor,
                actuator: *actuator,
                payload: value.clone(),
                outcome: Err(ActuatorError { message: "stuck".to_string() }),
            },
            Stage::Sleep => unreachable!(),
        };
        seen.push(stage);
        stage = plan.next(&step);
    }
    assert_eq!(
        seen,
        vec![
            Stage::Read { sensor: 0 },
            Stage::Send { sensor: 0, value: SensorOutput::Int(5) },
            Stage::Execute { sensor: 0, actuator: 0, value: SensorOutput::Int(5) },
            Stage::Execute { sensor: 0, actuator: 1, value: SensorOutput::Int(5) },
            Stage::Read { sensor: 1 },
        ]
    );
}
