use serial_master::com0com_manager::{Com0comManager, PathProbe, PortPair};
use serial_master::driver_task::{TaskPhase, TaskStep};
use serial_master::error::SerialError;
use serial_master::port_sharing_manager::{PortSharingManager, SharingStatus};
use serial_master::serial_manager::{
    BridgeAction, DataBits, FlowControl, Parity, ReadOutcome, ReaderAction, SerialManager,
    StopBits,
};

fn driver() -> Option<Com0comManager> {
    let probes = vec![PathProbe { path: "C:\\com0com\\setupc.exe".to_string(), exists: true }];
    Com0comManager::new(&probes).ok()
}

fn pair(id: u32, a: &str, b: &str) -> PortPair {
    PortPair { pair_id: id, port_a: a.to_string(), port_b: b.to_string() }
}

#[test]
fn test_new_manager() {
    let manager = PortSharingManager::new(driver());
    assert!(!manager.get_status().enabled);
    assert!(manager.get_status().port_pair.is_none());
    let manager = PortSharingManager::new(None);
    assert!(!manager.get_status().enabled);
    assert!(manager.get_status().port_pair.is_none());
    assert!(!manager.is_com0com_installed());
}

#[test]
fn test_status_default() {
    let status = SharingStatus { enabled: false, port_pair: None, external_port: None };
    assert!(!status.enabled);
}

#[test]
fn enabling_refuses_in_order() {
    let mut missing = PortSharingManager::new(None);
    assert!(matches!(missing.enable_sharing("COM8", &Vec::new()), Err(SerialError::DriverNotInstalled)));
    assert!(matches!(missing.plan_sharing(&vec![10, 11]), Err(SerialError::DriverNotInstalled)));
    let mut manager = PortSharingManager::new(driver());
    assert!(manager.is_com0com_installed());
    assert!(matches!(manager.plan_sharing(&vec![10]), Err(SerialError::NoAvailablePorts)));
    assert!(matches!(manager.plan_sharing(&vec![]), Err(SerialError::NoAvailablePorts)));
    match manager.plan_sharing(&vec![17, 240]) {
        Ok(TaskStep::Run { args, then }) => {
            assert_eq!(args, vec!["install", "PortName=COM17", "PortName=COM240"]);
            assert!(matches!(then, TaskPhase::Installing));
        }
        other => panic!("an install was expected, not {:?}", other),
    }
    assert_eq!(manager.finish_enabling(Ok(pair(3, "COM17", "COM240"))).unwrap(), "COM240");
    assert!(matches!(manager.plan_sharing(&vec![17, 240]), Err(SerialError::AlreadyEnabled)));
    assert!(matches!(manager.enable_sharing("COM8", &Vec::new()), Err(SerialError::AlreadyEnabled)));
    assert!(matches!(
        manager.finish_enabling(Ok(pair(4, "A", "B"))),
        Err(SerialError::AlreadyEnabled)
    ));
    assert_eq!(manager.get_status().port_pair.unwrap().pair_id, 3);
}

#[test]
fn enabling_asks_for_an_install_of_two_free_ports() {
    let mut manager = PortSharingManager::new(driver());
    let existing = vec!["COM3".to_string(), "COM10".to_string(), "com12".to_string()];
    match manager.enable_sharing("COM8", &existing) {
        Ok(TaskStep::Run { args, then }) => {
            assert_eq!(args, vec!["install", "PortName=COM11", "PortName=COM13"]);
            assert!(matches!(then, TaskPhase::Installing));
        }
        other => panic!("an install was expected, not {:?}", other),
    }
    assert!(!manager.get_status().enabled);
    match manager.enable_sharing("COM8", &Vec::new()) {
        Ok(TaskStep::Run { args, .. }) => {
            assert_eq!(args, vec!["install", "PortName=COM10", "PortName=COM11"])
        }
        other => panic!("an install was expected, not {:?}", other),
    }
    let mut all_but_one: Vec<String> = (10..255).map(|n| format!("com{}", n)).collect();
    assert!(matches!(
        manager.enable_sharing("COM8", &all_but_one),
        Err(SerialError::NoAvailablePorts)
    ));
    all_but_one.pop();
    match manager.enable_sharing("COM8", &all_but_one) {
        Ok(TaskStep::Run { args, .. }) => {
            assert_eq!(args, vec!["install", "PortName=COM254", "PortName=COM255"])
        }
        other => panic!("an install was expected, not {:?}", other),
    }
    assert!(!manager.get_status().enabled);
}

#[test]
fn sharing_goes_on_and_off_and_on_again() {
    let mut manager = PortSharingManager::new(driver());
    assert_eq!(manager.get_internal_port(), None);
    assert_eq!(manager.get_external_port(), None);
    assert!(matches!(manager.start_bridge(), Err(SerialError::PortNotOpen)));
    assert!(matches!(manager.disable_sharing(), Ok(None)));
    let failed = manager.finish_enabling(Err(SerialError::DriverCommandFailed { stderr: "x".to_string() }));
    assert!(matches!(failed, Err(SerialError::DriverCommandFailed { .. })));
    assert!(!manager.get_status().enabled);

    assert_eq!(manager.finish_enabling(Ok(pair(5, "COM10", "COM11"))).unwrap(), "COM11");
    let status = manager.get_status();
    assert!(status.enabled);
    assert_eq!(status.external_port.as_deref(), Some("COM11"));
    assert_eq!(status.port_pair.as_ref().unwrap().pair_id, 5);
    assert_eq!(manager.get_internal_port().as_deref(), Some("COM10"));
    assert_eq!(manager.get_external_port().as_deref(), Some("COM11"));
    assert!(manager.start_bridge().is_ok());
    assert!(manager.is_bridge_running());

    match manager.disable_sharing() {
        Ok(Some(TaskStep::Run { args, then })) => {
            assert_eq!(args, vec!["remove", "5"]);
            assert!(matches!(then, TaskPhase::Removing));
        }
        other => panic!("a removal was expected, not {:?}", other),
    }
    let status = manager.get_status();
    assert!(!status.enabled);
    assert!(status.port_pair.is_none());
    assert!(status.external_port.is_none());
    assert!(!manager.is_bridge_running());
    assert!(matches!(manager.disable_sharing(), Ok(None)));

    assert_eq!(manager.finish_enabling(Ok(pair(6, "COM12", "COM13"))).unwrap(), "COM13");
    let status = manager.get_status();
    assert_eq!(status.port_pair.as_ref().unwrap().pair_id, 6);
    assert_eq!(status.external_port.as_deref(), Some("COM13"));
}

#[test]
fn closing_keeps_the_share() {
    let mut session = SerialManager::new();
    assert!(matches!(session.write(), Err(SerialError::PortNotOpen)));
    assert_eq!(session.open("COM3", Ok(())).unwrap(), false);
    assert!(session.is_open());
    assert!(session.write().is_ok());
    assert!(session.start_sharing("COM11", Ok(())).is_ok());
    assert!(session.is_sharing());
    let mut coordinator = PortSharingManager::new(driver());
    coordinator.finish_enabling(Ok(pair(0, "COM10", "COM11"))).unwrap();
    assert!(session.close().is_ok());
    assert!(!session.is_open());
    assert!(matches!(session.write(), Err(SerialError::PortNotOpen)));
    assert!(session.is_sharing());
    assert!(coordinator.get_status().enabled);
    assert_eq!(session.reader_step(ReadOutcome::Bytes { count: 4 }), ReaderAction::Stop);
    assert_eq!(session.bridge_step(ReadOutcome::Bytes { count: 4 }), BridgeAction::Continue);
    assert!(session.close().is_ok());
    assert_eq!(session.open("COM3", Ok(())).unwrap(), false);
    assert_eq!(session.bridge_step(ReadOutcome::Bytes { count: 4 }), BridgeAction::Forward);
}

#[test]
fn session_loops_decide_by_what_was_read() {
    let mut session = SerialManager::new();
    assert_eq!(session.reader_step(ReadOutcome::TimedOut), ReaderAction::Stop);
    assert_eq!(session.bridge_step(ReadOutcome::TimedOut), BridgeAction::Stop);
    session.set_sender();
    match session.open("COM3", Err("denied".to_string())) {
        Err(SerialError::PortOpenFailed { os_error }) => {
            assert_eq!(os_error, "Failed to open port COM3: denied")
        }
        other => panic!("a failure to open was expected, not {:?}", other),
    }
    assert!(!session.is_open());
    assert_eq!(session.open("COM3", Ok(())).unwrap(), true);
    assert_eq!(
        session.reader_step(ReadOutcome::Bytes { count: 1 }),
        ReaderAction::Deliver { forward: false }
    );
    assert_eq!(session.reader_step(ReadOutcome::Bytes { count: 0 }), ReaderAction::Continue);
    assert_eq!(session.reader_step(ReadOutcome::TimedOut), ReaderAction::Continue);
    assert_eq!(session.reader_step(ReadOutcome::Failed), ReaderAction::Stop);
    match session.start_sharing("COM11", Err("busy".to_string())) {
        Err(SerialError::PortOpenFailed { os_error }) => {
            assert_eq!(os_error, "Failed to open virtual port COM11: busy")
        }
        other => panic!("a failure to open was expected, not {:?}", other),
    }
    assert!(!session.is_sharing());
    session.start_sharing("COM11", Ok(())).unwrap();
    assert_eq!(
        session.reader_step(ReadOutcome::Bytes { count: 9 }),
        ReaderAction::Deliver { forward: true }
    );
    assert_eq!(session.bridge_step(ReadOutcome::Bytes { count: 9 }), BridgeAction::Forward);
    assert_eq!(session.bridge_step(ReadOutcome::Bytes { count: 0 }), BridgeAction::Continue);
    assert_eq!(session.bridge_step(ReadOutcome::TimedOut), BridgeAction::Continue);
    assert_eq!(session.bridge_step(ReadOutcome::Failed), BridgeAction::Stop);
    session.stop_sharing().unwrap();
    assert!(!session.is_sharing());
    assert!(session.is_open());
    assert_eq!(session.bridge_step(ReadOutcome::Bytes { count: 9 }), BridgeAction::Stop);
}

#[test]
fn ports_are_opened_with_the_short_timeout() {
    let settings = SerialManager::open_settings(
        "COM8",
        9600,
        DataBits::Seven,
        FlowControl::Hardware,
        Parity::Even,
        StopBits::Two,
    );
    assert_eq!(settings.port_name, "COM8");
    assert_eq!(settings.baud_rate, 9600);
    assert_eq!(settings.data_bits, DataBits::Seven);
    assert_eq!(settings.flow_control, FlowControl::Hardware);
    assert_eq!(settings.parity, Parity::Even);
    assert_eq!(settings.stop_bits, StopBits::Two);
    assert_eq!(settings.timeout_millis, 10);
    let settings = SerialManager::sharing_settings("COM11");
    assert_eq!(settings.port_name, "COM11");
    assert_eq!(settings.baud_rate, 115200);
    assert_eq!(settings.data_bits, DataBits::Eight);
    assert_eq!(settings.flow_control, FlowControl::Off);
    assert_eq!(settings.parity, Parity::Off);
    assert_eq!(settings.stop_bits, StopBits::One);
    assert_eq!(settings.timeout_millis, 10);
}

#[test]
fn pairs_are_handled_through_the_coordinator() {
    let missing = PortSharingManager::new(None);
    assert!(matches!(missing.list_pairs(), Err(SerialError::DriverNotInstalled)));
    assert!(matches!(missing.create_pair("-", "-"), Err(SerialError::DriverNotInstalled)));
    assert!(matches!(missing.rename_pair(0, "A", "B"), Err(SerialError::DriverNotInstalled)));
    assert!(matches!(missing.remove_pair(0), Err(SerialError::DriverNotInstalled)));
    let manager = PortSharingManager::new(driver());
    match manager.list_pairs() {
        Ok(TaskStep::Run { args, then }) => {
            assert_eq!(args, vec!["list"]);
            assert!(matches!(then, TaskPhase::Listing));
        }
        other => panic!("a listing was expected, not {:?}", other),
    }
    match manager.create_pair("-", "COM9") {
        Ok(TaskStep::Run { args, .. }) => assert_eq!(args, vec!["install", "PortName=-", "PortName=COM9"]),
        other => panic!("an install was expected, not {:?}", other),
    }
    match manager.rename_pair(2, "X", "Y") {
        Ok(TaskStep::Run { args, then }) => {
            assert_eq!(args, vec!["change", "CNCA2", "PortName=X"]);
            match then {
                TaskPhase::RenamingA { change_b } => {
                    assert_eq!(change_b, vec!["change", "CNCB2", "PortName=Y"])
                }
                other => panic!("a second change was expected, not {:?}", other),
            }
        }
        other => panic!("a change was expected, not {:?}", other),
    }
    match manager.remove_pair(7) {
        Ok(TaskStep::Run { args, .. }) => assert_eq!(args, vec!["remove", "7"]),
        other => panic!("a removal was expected, not {:?}", other),
    }
}

#[test]
fn sharing_stays_off_without_a_driver() {
    let mut missing = PortSharingManager::new(None);
    assert!(missing.get_com0com().is_none());
    assert!(matches!(
        missing.finish_enabling(Ok(pair(1, "COM10", "COM11"))),
        Err(SerialError::DriverNotInstalled)
    ));
    assert!(matches!(
        missing.finish_enabling(Err(SerialError::EscalationTimeout)),
        Err(SerialError::DriverNotInstalled)
    ));
    let status = missing.get_status();
    assert!(!status.enabled);
    assert!(status.port_pair.is_none());
    assert!(status.external_port.is_none());
    assert!(matches!(missing.disable_sharing(), Ok(None)));
    assert!(matches!(missing.start_bridge(), Err(SerialError::PortNotOpen)));

    let given = Com0comManager::at(
        "D:\\driver\\setupc.exe".to_string(),
        Some("D:\\driver".to_string()),
        "a token".to_string(),
    );
    let manager = PortSharingManager::new(Some(given));
    let held = manager.get_com0com().expect("the coordinator holds the driver's manager");
    assert_eq!(held.get_setupc_path(), "D:\\driver\\setupc.exe");
    assert_eq!(held.get_working_dir().as_deref(), Some("D:\\driver"));
    assert_eq!(held.get_admin_token(), "a token");
}
