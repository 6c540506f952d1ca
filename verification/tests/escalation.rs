use serial_master::admin_service::{
    AdminService, ExecOutcome, ServiceAction, ServiceEvent, ServiceState,
};
use serial_master::com0com_manager::{Com0comManager, PathProbe};
use serial_master::command_run::{
    text_has_permission_marks, text_is_permission_error, text_needs_elevation, CommandRun,
    RunAction, RunEvent, RunPhase,
    RunStep,
};
use serial_master::error::SerialError;
use serial_master::ipc::{AdminRequest, AdminRequestEnvelope, AdminResponse};

fn list() -> Vec<String> {
    vec!["list".to_string()]
}

fn started() -> CommandRun {
    match CommandRun::start(list(), Some("C:\\com0com".to_string()), "token".to_string()) {
        RunStep::Act { action: RunAction::Execute { args, cwd }, then } => {
            assert_eq!(args, list());
            assert_eq!(cwd, "C:\\com0com");
            assert!(matches!(then.phase, RunPhase::Running));
            then
        }
        other => panic!("a start was expected, not {:?}", other),
    }
}

fn denied() -> RunEvent {
    RunEvent::Exited { success: false, stdout: "x failed 5".to_string(), stderr: String::new() }
}

fn next(step: RunStep) -> (RunAction, CommandRun) {
    match step {
        RunStep::Act { action, then } => (action, then),
        RunStep::Finished(result) => panic!("the run ended early: {:?}", result),
    }
}

#[test]
fn a_command_that_succeeds_ends_the_run() {
    let step = started().step(RunEvent::Exited {
        success: true,
        stdout: "CNCA0 PortName=-".to_string(),
        stderr: "warning".to_string(),
    });
    match step {
        RunStep::Finished(Ok(printed)) => assert_eq!(printed, "CNCA0 PortName=-"),
        other => panic!("the output was expected, not {:?}", other),
    }
}

#[test]
fn a_plain_failure_is_reported_with_its_stderr() {
    let step = started().step(RunEvent::Exited {
        success: false,
        stdout: "out".to_string(),
        stderr: "bad argument".to_string(),
    });
    match step {
        RunStep::Finished(Err(SerialError::DriverCommandFailed { stderr })) => {
            assert_eq!(stderr, "bad argument")
        }
        other => panic!("a failure was expected, not {:?}", other),
    }
    let step = started().step(RunEvent::NotStarted { os_error: "file not found".to_string() });
    match step {
        RunStep::Finished(Err(SerialError::DriverCommandFailed { stderr })) => {
            assert_eq!(stderr, "file not found")
        }
        other => panic!("a failure was expected, not {:?}", other),
    }
    assert!(matches!(
        CommandRun::start(list(), None, "t".to_string()),
        RunStep::Finished(Err(SerialError::DriverCommandFailed { .. }))
    ));
}

#[test]
fn missing_rights_are_told_from_free_text() {
    assert!(text_is_permission_error("ComDB: failed 5"));
    assert!(text_is_permission_error("Access is DENIED."));
    assert!(text_is_permission_error("access is denied"));
    assert!(text_is_permission_error("错误: 拒绝访问。"));
    assert!(text_is_permission_error("UpdateDriverForPlugAndPlayDevices() error 5"));
    assert!(!text_is_permission_error("UpdateDriverForPlugAndPlayDevices() error 2"));
    assert!(!text_is_permission_error("failed 2"));
    assert!(!text_is_permission_error(""));
    assert!(!text_is_permission_error("5"));
    assert!(text_needs_elevation("The requested operation requires elevation. (os error 740)"));
    assert!(text_needs_elevation("error 740"));
    assert!(text_needs_elevation("请求的操作需要提升。"));
    assert!(!text_needs_elevation("No such file or directory (os error 2)"));
}

#[test]
fn missing_rights_lead_to_the_helper() {
    let (action, run) = next(started().step(denied()));
    assert!(matches!(action, RunAction::Connect));
    assert!(matches!(run.phase, RunPhase::Connecting));
    let (action, run) = next(run.step(RunEvent::Connected));
    match action {
        RunAction::Send(AdminRequestEnvelope {
            token,
            payload: AdminRequest::ExecuteSetupc { args, cwd },
        }) => {
            assert_eq!(token, "token");
            assert_eq!(args, list());
            assert_eq!(cwd, "C:\\com0com");
        }
        other => panic!("a request was expected, not {:?}", other),
    }
    let answer = AdminResponse {
        success: true,
        stdout: "done".to_string(),
        stderr: String::new(),
        error: None,
    };
    match run.step(RunEvent::Answered(answer)) {
        RunStep::Finished(Ok(printed)) => assert_eq!(printed, "done"),
        other => panic!("the helper's output was expected, not {:?}", other),
    }
    let (action, _) = next(started().step(RunEvent::NotStarted {
        os_error: "requires elevation".to_string(),
    }));
    assert!(matches!(action, RunAction::Connect));
}

#[test]
fn the_helper_is_launched_and_polled_ten_times() {
    let (_, run) = next(started().step(denied()));
    let (action, run) = next(run.step(RunEvent::ConnectFailed));
    assert!(matches!(action, RunAction::Launch));
    let args = run.launch_arguments("C:\\it's\\app.exe", 4242);
    assert_eq!(
        args,
        vec![
            "-NoProfile".to_string(),
            "-Command".to_string(),
            "Start-Process -FilePath 'C:\\it''s\\app.exe' -ArgumentList '--admin-service', '--parent-pid', '4242', '--token', 'token' -Verb RunAs -WindowStyle Hidden".to_string(),
        ]
    );
    let (action, mut run) = next(run.step(RunEvent::Launched { success: true }));
    assert!(matches!(action, RunAction::SleepThenConnect { millis: 500 }));
    assert!(matches!(run.phase, RunPhase::Polling { retries_left: 10 }));
    for left in (1..10).rev() {
        let (action, then) = next(run.step(RunEvent::ConnectFailed));
        assert!(matches!(action, RunAction::SleepThenConnect { millis: 500 }));
        match then.phase {
            RunPhase::Polling { retries_left } => assert_eq!(retries_left, left),
            other => panic!("polling was expected, not {:?}", other),
        }
        run = then;
    }
    assert!(matches!(
        run.step(RunEvent::ConnectFailed),
        RunStep::Finished(Err(SerialError::EscalationTimeout))
    ));
}

#[test]
fn the_helper_that_comes_up_is_asked() {
    let (_, run) = next(started().step(denied()));
    let (_, run) = next(run.step(RunEvent::ConnectFailed));
    let (_, run) = next(run.step(RunEvent::Launched { success: true }));
    let (_, run) = next(run.step(RunEvent::ConnectFailed));
    let (action, run) = next(run.step(RunEvent::Connected));
    assert!(matches!(action, RunAction::Send(_)));
    assert!(matches!(run.phase, RunPhase::Exchanging));
    let refused = AdminResponse {
        success: false,
        stdout: "ignored".to_string(),
        stderr: "still no".to_string(),
        error: None,
    };
    match run.step(RunEvent::Answered(refused)) {
        RunStep::Finished(Err(SerialError::EscalationFailed { reason })) => {
            assert_eq!(reason, "setupc failed via Admin Service: still no")
        }
        other => panic!("a failure was expected, not {:?}", other),
    }
}

#[test]
fn escalation_failures_carry_their_reason() {
    let exchanging = || {
        let (_, run) = next(started().step(denied()));
        let (_, run) = next(run.step(RunEvent::Connected));
        run
    };
    let broken = AdminResponse {
        success: false,
        stdout: String::new(),
        stderr: "e".to_string(),
        error: Some("no setupc".to_string()),
    };
    match exchanging().step(RunEvent::Answered(broken)) {
        RunStep::Finished(Err(SerialError::EscalationFailed { reason })) => {
            assert_eq!(reason, "Admin Service Error: no setupc")
        }
        other => panic!("a failure was expected, not {:?}", other),
    }
    match exchanging().step(RunEvent::ExchangeFailed { reason: "reset".to_string() }) {
        RunStep::Finished(Err(SerialError::EscalationFailed { reason })) => {
            assert_eq!(reason, "reset")
        }
        other => panic!("a failure was expected, not {:?}", other),
    }
    let launching = || {
        let (_, run) = next(started().step(denied()));
        let (_, run) = next(run.step(RunEvent::ConnectFailed));
        run
    };
    match launching().step(RunEvent::Launched { success: false }) {
        RunStep::Finished(Err(SerialError::EscalationFailed { reason })) => {
            assert_eq!(reason, "Failed to start admin service (UAC denied?)")
        }
        other => panic!("a failure was expected, not {:?}", other),
    }
    match launching().step(RunEvent::LaunchFailed { reason: "no shell".to_string() }) {
        RunStep::Finished(Err(SerialError::EscalationFailed { reason })) => {
            assert_eq!(reason, "no shell")
        }
        other => panic!("a failure was expected, not {:?}", other),
    }
    match started().step(RunEvent::Connected) {
        RunStep::Finished(Err(SerialError::EscalationFailed { reason })) => {
            assert_eq!(reason, "unexpected event")
        }
        other => panic!("a failure was expected, not {:?}", other),
    }
}

#[test]
fn a_manager_runs_the_utility_in_its_own_directory() {
    let probes = vec![PathProbe { path: "/opt/com0com/setupc.exe".to_string(), exists: true }];
    let manager = Com0comManager::new(&probes).unwrap();
    match manager.run_command(list()) {
        RunStep::Act { action: RunAction::Execute { args, cwd }, then } => {
            assert_eq!(args, list());
            assert_eq!(cwd, "/opt/com0com");
            assert_eq!(&then.token, manager.get_admin_token());
            assert_eq!(then.token.len(), 36);
            assert_eq!(then.token.matches('-').count(), 4);
        }
        other => panic!("a start was expected, not {:?}", other),
    }
    let other = Com0comManager::new(&probes).unwrap();
    assert_ne!(other.get_admin_token(), manager.get_admin_token());
}

#[test]
fn the_service_serves_one_request_per_caller() {
    let mut service = AdminService::new(Some(77));
    assert_eq!(service.state(), ServiceState::Listening);
    assert!(matches!(service.step(ServiceEvent::Started), ServiceAction::CheckParent { pid: 77 }));
    assert!(matches!(service.step(ServiceEvent::ParentChecked { alive: true }), ServiceAction::Accept));
    assert!(matches!(service.step(ServiceEvent::NoConnection), ServiceAction::Sleep { millis: 500 }));
    assert!(matches!(service.step(ServiceEvent::Woke), ServiceAction::CheckParent { pid: 77 }));
    assert!(matches!(service.step(ServiceEvent::ParentChecked { alive: true }), ServiceAction::Accept));
    assert!(matches!(service.step(ServiceEvent::Accepted), ServiceAction::Read { timeout_secs: 5 }));
    let envelope = AdminRequestEnvelope {
        token: "whatever".to_string(),
        payload: AdminRequest::ExecuteSetupc {
            args: vec!["remove".to_string(), "0".to_string()],
            cwd: "C:\\com0com".to_string(),
        },
    };
    match service.step(ServiceEvent::Received(envelope)) {
        ServiceAction::Execute { args, cwd } => {
            assert_eq!(args, vec!["remove", "0"]);
            assert_eq!(cwd, "C:\\com0com");
        }
        other => panic!("an execution was expected, not {:?}", other),
    }
    let outcome = ExecOutcome::Exited {
        success: false,
        stdout: "o".to_string(),
        stderr: "e".to_string(),
    };
    match service.step(ServiceEvent::Executed(outcome)) {
        ServiceAction::Reply(response) => {
            assert!(!response.success);
            assert_eq!(response.stdout, "o");
            assert_eq!(response.stderr, "e");
            assert_eq!(response.error, None);
        }
        other => panic!("a reply was expected, not {:?}", other),
    }
    assert!(matches!(service.step(ServiceEvent::Replied), ServiceAction::CheckParent { pid: 77 }));
    assert!(matches!(service.step(ServiceEvent::AcceptFailed), ServiceAction::CheckParent { pid: 77 }));
    assert!(matches!(service.step(ServiceEvent::Malformed), ServiceAction::CheckParent { pid: 77 }));
    assert_eq!(service.state(), ServiceState::Listening);
    assert!(matches!(service.step(ServiceEvent::ParentChecked { alive: false }), ServiceAction::Exit));
    assert_eq!(service.state(), ServiceState::Terminated);
    assert!(matches!(service.step(ServiceEvent::Accepted), ServiceAction::Exit));
    assert_eq!(service.state(), ServiceState::Terminated);
}

#[test]
fn the_service_stops_when_told() {
    let mut service = AdminService::new(None);
    assert!(matches!(service.step(ServiceEvent::Started), ServiceAction::Accept));
    assert!(matches!(service.step(ServiceEvent::Woke), ServiceAction::Accept));
    let envelope = AdminRequestEnvelope { token: String::new(), payload: AdminRequest::Shutdown };
    assert!(matches!(service.step(ServiceEvent::Received(envelope)), ServiceAction::Exit));
    assert_eq!(service.state(), ServiceState::Terminated);
    assert!(matches!(service.step(ServiceEvent::Started), ServiceAction::Exit));
}

#[test]
fn the_service_answers_by_how_the_utility_fared() {
    let missing = AdminService::handle_request(ExecOutcome::UtilityMissing {
        reason: "nowhere".to_string(),
    });
    assert!(!missing.success);
    assert_eq!(missing.stdout, "");
    assert_eq!(missing.stderr, "");
    assert_eq!(missing.error.as_deref(), Some("Failed to find setupc: nowhere"));
    let unstarted = AdminService::handle_request(ExecOutcome::NotStarted {
        os_error: "os error 2".to_string(),
    });
    assert!(!unstarted.success);
    assert_eq!(unstarted.error.as_deref(), Some("os error 2"));
    let ran = AdminService::handle_request(ExecOutcome::Exited {
        success: true,
        stdout: "out".to_string(),
        stderr: "err".to_string(),
    });
    assert!(ran.success);
    assert_eq!(ran.stdout, "out");
    assert_eq!(ran.stderr, "err");
    assert_eq!(ran.error, None);
}

#[test]
fn a_manager_is_made_at_a_place() {
    let manager = Com0comManager::at(
        "D:\\tools\\setupc.exe".to_string(),
        Some("D:\\tools".to_string()),
        "token".to_string(),
    );
    assert_eq!(manager.get_setupc_path(), "D:\\tools\\setupc.exe");
    assert_eq!(manager.get_working_dir().as_deref(), Some("D:\\tools"));
    assert_eq!(manager.get_admin_token(), "token");
    match manager.run_command(list()) {
        RunStep::Act { action: RunAction::Execute { args, cwd }, then } => {
            assert_eq!(args, list());
            assert_eq!(cwd, "D:\\tools");
            assert!(matches!(then.phase, RunPhase::Running));
            assert_eq!(then.args, list());
            assert_eq!(then.cwd, "D:\\tools");
            assert_eq!(then.token, "token");
        }
        other => panic!("a start was expected, not {:?}", other),
    }
    let nowhere = Com0comManager::at("setupc.exe".to_string(), None, "token".to_string());
    assert_eq!(nowhere.get_working_dir(), &None);
    match nowhere.run_command(list()) {
        RunStep::Finished(Err(SerialError::DriverCommandFailed { stderr })) => {
            assert_eq!(stderr, "the control utility has no parent directory")
        }
        other => panic!("a failure was expected, not {:?}", other),
    }
}

#[test]
fn permission_marks_are_read_from_the_text_and_its_lowercase() {
    assert!(text_has_permission_marks("ComDB: failed 5", "comdb: failed 5"));
    assert!(text_has_permission_marks("Access is DENIED.", "access is denied."));
    assert!(!text_has_permission_marks("Access is DENIED.", "Access is DENIED."));
    assert!(text_has_permission_marks("拒绝访问", "拒绝访问"));
    assert!(text_has_permission_marks(
        "UpdateDriverForPlugAndPlayDevices() error 5",
        "updatedriverforplugandplaydevices() error 5",
    ));
    assert!(!text_has_permission_marks(
        "updatedriverforplugandplaydevices() error 5",
        "updatedriverforplugandplaydevices() error 5",
    ));
    assert!(!text_has_permission_marks("UpdateDriverForPlugAndPlayDevices() error 2", ""));
    assert!(!text_has_permission_marks("failed 2", "failed 2"));
    assert!(!text_has_permission_marks("", ""));
    assert!(text_has_permission_marks("", "access is denied"));
}
