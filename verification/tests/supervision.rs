use backend_supervisor::error::SetupError;
use backend_supervisor::supervisor::{
    failure_message, success_message, Decision, Operation, State, Supervisor,
};

fn launch_error() -> SetupError {
    SetupError::Launch { reason: "No such file or directory (os error 2)".to_string() }
}

#[test]
fn new_supervisor_is_idle() {
    let supervisor: Supervisor<u32> = Supervisor::new();
    assert!(!supervisor.is_running());
    assert_eq!(supervisor.state(), State::Idle);
    assert!(supervisor.held().is_none());
}

#[test]
fn start_from_idle_proceeds_and_holds_the_process() {
    let mut supervisor: Supervisor<u32> = Supervisor::new();
    assert!(matches!(supervisor.start_setup(), Decision::Proceed));
    assert_eq!(supervisor.state(), State::Idle);
    let settlement = supervisor.settle(Operation::StartSetup, Ok(11));
    assert_eq!(settlement.reply.unwrap(), "백엔드 설치 및 시작이 완료되었습니다.");
    assert_eq!(settlement.displaced, None);
    assert_eq!(supervisor.state(), State::Running);
    assert_eq!(supervisor.held(), Some(&11));
}

#[test]
fn second_start_reports_already_running_and_starts_nothing() {
    let mut supervisor: Supervisor<u32> = Supervisor::new();
    assert!(matches!(supervisor.start_setup(), Decision::Proceed));
    supervisor.settle(Operation::StartSetup, Ok(11)).reply.unwrap();
    match supervisor.start_setup() {
        Decision::AlreadyRunning { message } => assert_eq!(message, "백엔드가 이미 실행 중입니다."),
        Decision::Proceed => panic!("a second process would have been started"),
    }
    assert_eq!(supervisor.held(), Some(&11));
    assert_eq!(supervisor.state(), State::Running);
}

#[test]
fn failed_launch_leaves_idle_and_tells_the_reason() {
    let mut supervisor: Supervisor<u32> = Supervisor::new();
    assert!(matches!(supervisor.start_setup(), Decision::Proceed));
    let settlement = supervisor.settle(Operation::StartSetup, Err(launch_error()));
    assert_eq!(settlement.displaced, None);
    let failure = settlement.reply.unwrap_err();
    assert_eq!(
        failure.message,
        "백엔드 시작에 실패했습니다. No such file or directory (os error 2)"
    );
    assert!(failure.message.contains("No such file or directory (os error 2)"));
    assert!(matches!(failure.error, SetupError::Launch { .. }));
    assert_eq!(supervisor.state(), State::Idle);
    assert!(supervisor.held().is_none());
}

#[test]
fn unresolved_path_leaves_idle() {
    let mut supervisor: Supervisor<u32> = Supervisor::new();
    assert!(matches!(supervisor.start_setup(), Decision::Proceed));
    let failure = supervisor
        .settle(Operation::StartSetup, Err(SetupError::PathResolution))
        .reply
        .unwrap_err();
    assert_eq!(failure.message, "백엔드 시작에 실패했습니다.");
    assert!(failure.error.is_path_resolution());
    assert_eq!(supervisor.state(), State::Idle);
}

#[test]
fn restart_from_idle_starts_a_process() {
    let mut supervisor: Supervisor<u32> = Supervisor::new();
    assert_eq!(supervisor.restart(), None);
    assert_eq!(supervisor.state(), State::Idle);
    let settlement = supervisor.settle(Operation::Restart, Ok(21));
    assert_eq!(settlement.reply.unwrap(), "백엔드가 성공적으로 재시작되었습니다.");
    assert_eq!(settlement.displaced, None);
    assert_eq!(supervisor.held(), Some(&21));
}

#[test]
fn restart_while_running_replaces_the_process() {
    let mut supervisor: Supervisor<u32> = Supervisor::new();
    supervisor.start_setup();
    supervisor.settle(Operation::StartSetup, Ok(11)).reply.unwrap();
    assert_eq!(supervisor.restart(), Some(11));
    assert_eq!(supervisor.state(), State::Idle);
    assert!(supervisor.held().is_none());
    let settlement = supervisor.settle(Operation::Restart, Ok(12));
    assert!(settlement.reply.is_ok());
    assert_eq!(settlement.displaced, None);
    assert_eq!(supervisor.held(), Some(&12));
    assert_eq!(supervisor.state(), State::Running);
}

#[test]
fn failed_restart_leaves_idle() {
    let mut supervisor: Supervisor<u32> = Supervisor::new();
    supervisor.start_setup();
    supervisor.settle(Operation::StartSetup, Ok(11)).reply.unwrap();
    assert_eq!(supervisor.restart(), Some(11));
    let failure = supervisor.settle(Operation::Restart, Err(launch_error())).reply.unwrap_err();
    assert_eq!(
        failure.message,
        "백엔드 재시작에 실패했습니다. No such file or directory (os error 2)"
    );
    assert_eq!(supervisor.state(), State::Idle);
    let failure = supervisor
        .settle(Operation::Restart, Err(SetupError::PathResolution))
        .reply
        .unwrap_err();
    assert_eq!(failure.message, "백엔드 재시작에 실패했습니다.");
    assert_eq!(supervisor.state(), State::Idle);
}

#[test]
fn shutdown_gives_up_the_process_and_leaves_idle() {
    let mut supervisor: Supervisor<u32> = Supervisor::new();
    supervisor.start_setup();
    supervisor.settle(Operation::StartSetup, Ok(11)).reply.unwrap();
    assert_eq!(supervisor.shutdown(), Some(11));
    assert_eq!(supervisor.state(), State::Idle);
    assert!(supervisor.held().is_none());
}

#[test]
fn shutdown_of_an_idle_supervisor_leaves_idle() {
    let mut supervisor: Supervisor<u32> = Supervisor::new();
    assert_eq!(supervisor.shutdown(), None);
    assert_eq!(supervisor.state(), State::Idle);
    assert_eq!(supervisor.shutdown(), None);
    assert_eq!(supervisor.state(), State::Idle);
}

#[test]
fn start_after_shutdown_proceeds_again() {
    let mut supervisor: Supervisor<u32> = Supervisor::new();
    supervisor.start_setup();
    supervisor.settle(Operation::StartSetup, Ok(11)).reply.unwrap();
    supervisor.shutdown();
    assert!(matches!(supervisor.start_setup(), Decision::Proceed));
}

/// Plays whole operations in turn and keeps count of the processes that came
/// to be held and were not handed out since.
fn play(operations: &[(u8, Option<u32>)]) {
    let mut supervisor: Supervisor<u32> = Supervisor::new();
    let mut live: Vec<u32> = Vec::new();
    for (kind, launched) in operations {
        let outcome = match launched {
            Some(handle) => Ok(*handle),
            None => Err(launch_error()),
        };
        match kind {
            0 => {
                if let Decision::Proceed = supervisor.start_setup() {
                    settle(&mut supervisor, &mut live, Operation::StartSetup, outcome);
                }
            }
            1 => {
                let retired = supervisor.restart();
                retire(&mut live, retired);
                settle(&mut supervisor, &mut live, Operation::Restart, outcome);
            }
            _ => {
                let retired = supervisor.shutdown();
                retire(&mut live, retired);
            }
        }
        assert!(live.len() <= 1);
        assert_eq!(live.first(), supervisor.held());
    }
}

fn retire(live: &mut Vec<u32>, retired: Option<u32>) {
    if let Some(retired) = retired {
        let before = live.len();
        live.retain(|handle| *handle != retired);
        assert_eq!(live.len() + 1, before);
    }
}

fn settle(
    supervisor: &mut Supervisor<u32>,
    live: &mut Vec<u32>,
    operation: Operation,
    outcome: Result<u32, SetupError>,
) {
    if let Ok(handle) = &outcome {
        live.push(*handle);
    }
    let settlement = supervisor.settle(operation, outcome);
    retire(live, settlement.displaced);
}

#[test]
fn operations_in_turn_never_leave_two_live_processes() {
    play(&[(1, Some(1)), (1, Some(2)), (1, Some(3))]);
    play(&[(0, Some(1)), (0, Some(2)), (1, Some(3)), (0, Some(4)), (2, None), (0, Some(5))]);
    play(&[(1, None), (0, None), (0, Some(1)), (1, None), (1, Some(2)), (2, None), (2, None)]);
    let mut seed: u32 = 7;
    let mut operations = Vec::new();
    for n in 0..300u32 {
        seed = seed.wrapping_mul(1103515245).wrapping_add(12345);
        let kind = ((seed >> 16) % 3) as u8;
        let launched = if (seed >> 20) % 4 == 0 { None } else { Some(n) };
        operations.push((kind, launched));
    }
    play(&operations);
}

#[test]
fn interleaved_restarts_never_leave_two_live_processes() {
    let mut supervisor: Supervisor<u32> = Supervisor::new();
    let mut live: Vec<u32> = Vec::new();
    settle(&mut supervisor, &mut live, Operation::StartSetup, Ok(1));

    // Two restarts whose halves alternate: both give up, then both settle.
    let first = supervisor.restart();
    retire(&mut live, first);
    let second = supervisor.restart();
    assert_eq!(second, None);
    settle(&mut supervisor, &mut live, Operation::Restart, Ok(2));
    assert_eq!(live, vec![2]);
    settle(&mut supervisor, &mut live, Operation::Restart, Ok(3));
    assert_eq!(live, vec![3]);
    assert_eq!(supervisor.held(), Some(&3));
}

#[test]
fn settling_over_a_held_process_hands_it_back() {
    let mut supervisor: Supervisor<u32> = Supervisor::new();
    supervisor.settle(Operation::StartSetup, Ok(1));
    let settlement = supervisor.settle(Operation::Restart, Ok(2));
    assert_eq!(settlement.displaced, Some(1));
    assert_eq!(settlement.reply.unwrap(), "백엔드가 성공적으로 재시작되었습니다.");
    assert_eq!(supervisor.held(), Some(&2));
}

#[test]
fn failed_attempt_leaves_a_held_process_alone() {
    let mut supervisor: Supervisor<u32> = Supervisor::new();
    supervisor.settle(Operation::StartSetup, Ok(1));
    let settlement = supervisor.settle(Operation::Restart, Err(launch_error()));
    assert_eq!(settlement.displaced, None);
    assert!(settlement.reply.is_err());
    assert_eq!(supervisor.held(), Some(&1));
    assert_eq!(supervisor.state(), State::Running);
}

#[test]
fn status_messages() {
    assert_eq!(success_message(Operation::StartSetup), "백엔드 설치 및 시작이 완료되었습니다.");
    assert_eq!(success_message(Operation::Restart), "백엔드가 성공적으로 재시작되었습니다.");
    assert_eq!(
        failure_message(Operation::StartSetup, &SetupError::PathResolution),
        "백엔드 시작에 실패했습니다."
    );
    assert_eq!(
        failure_message(Operation::Restart, &SetupError::PathResolution),
        "백엔드 재시작에 실패했습니다."
    );
    assert_eq!(
        failure_message(Operation::Restart, &SetupError::Launch { reason: "denied".to_string() }),
        "백엔드 재시작에 실패했습니다. denied"
    );
}

/// A request for termination that finds the process gone.
fn terminate_gone(process: u32) -> Result<(), String> {
    Err(format!("process {} is gone", process))
}

#[test]
fn restart_after_the_process_ended_by_itself() {
    let mut supervisor: Supervisor<u32> = Supervisor::new();
    supervisor.start_setup();
    supervisor.settle(Operation::StartSetup, Ok(11)).reply.unwrap();
    if let Some(retired) = supervisor.restart() {
        let _ = terminate_gone(retired);
    }
    let settlement = supervisor.settle(Operation::Restart, Ok(12));
    assert_eq!(settlement.reply.unwrap(), "백엔드가 성공적으로 재시작되었습니다.");
    assert_eq!(supervisor.held(), Some(&12));
}
