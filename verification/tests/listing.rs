use serial_master::com0com_manager::{Com0comManager, PathProbe, PortPair};
use serial_master::driver_task::{TaskOutput, TaskPhase, TaskStep};
use serial_master::error::SerialError;
use serial_master::hub4com_manager::Hub4comManager;

fn installed() -> Vec<PathProbe> {
    vec![
        PathProbe { path: "C:\\Program Files (x86)\\com0com\\setupc.exe".to_string(), exists: false },
        PathProbe { path: "C:\\Program Files\\com0com\\setupc.exe".to_string(), exists: true },
    ]
}

fn run(step: TaskStep, outputs: Vec<Result<String, SerialError>>) -> (Vec<Vec<String>>, Result<TaskOutput, SerialError>) {
    let mut commands = Vec::new();
    let mut step = step;
    let mut outputs = outputs.into_iter();
    loop {
        match step {
            TaskStep::Finished(result) => return (commands, result),
            TaskStep::Run { args, then } => {
                commands.push(args);
                let outcome = outputs.next().expect("the task asks for more commands than foreseen");
                step = then.advance(outcome);
            }
        }
    }
}

fn pairs_of(output: TaskOutput) -> Vec<PortPair> {
    match output {
        TaskOutput::Pairs(pairs) => pairs,
        other => panic!("pairs were expected, not {:?}", other),
    }
}

#[test]
fn test_parse_list_output() {
    let output = "\nCNCA0 PortName=COM10\nCNCB0 PortName=COM11\nCNCA1 PortName=-\nCNCB1 PortName=-\n";
    let pairs = Com0comManager::parse_list_output(output).unwrap();
    assert_eq!(pairs.len(), 2);
    assert_eq!(pairs[0].pair_id, 0);
    assert_eq!(pairs[0].port_a, "COM10");
    assert_eq!(pairs[0].port_b, "COM11");
    assert_eq!(pairs[1].pair_id, 1);
    assert_eq!(pairs[1].port_a, "CNCA1");
    assert_eq!(pairs[1].port_a, "CNCA1");
    assert_eq!(pairs[1].port_b, "CNCB1");
}

#[test]
fn test_parse_list_output_complex() {
    let output = "\nCNCA0 PortName=COM#,RealPortName=COM9\nCNCB0 PortName=COM10 EmuBR=yes\n";
    let pairs = Com0comManager::parse_list_output(output).unwrap();
    assert_eq!(pairs.len(), 1);
    assert_eq!(pairs[0].port_a, "COM9");
    assert_eq!(pairs[0].port_b, "COM10");
}

#[test]
fn test_parse_cnc_prefix() {
    assert_eq!(Com0comManager::parse_cnc_prefix("CNCA0"), Some((0, true)));
    assert_eq!(Com0comManager::parse_cnc_prefix("CNCB0"), Some((0, false)));
    assert_eq!(Com0comManager::parse_cnc_prefix("CNCA12"), Some((12, true)));
    assert_eq!(Com0comManager::parse_cnc_prefix("COM10"), None);
}

#[test]
fn test_list_pairs() {
    let result = Com0comManager::new(&installed());
    if let Ok(manager) = result {
        println!("Found setupc at: {:?}", Com0comManager::is_installed(&installed()));
        let (commands, outcome) = run(
            manager.list_pairs(),
            vec![Ok("CNCA0 PortName=COM10\nCNCB0 PortName=COM11\n".to_string())],
        );
        assert_eq!(commands, vec![vec!["list".to_string()]]);
        match outcome {
            Ok(output) => {
                let pairs = pairs_of(output);
                println!("Found {} pairs", pairs.len());
                assert_eq!(pairs.len(), 1);
                for pair in pairs {
                    println!("{:?}", pair);
                }
            }
            Err(e) => panic!("Failed to list pairs: {:?}", e),
        }
    } else {
        panic!("the probes hold an existing path");
    }
}

#[test]
fn diagnose_com0com_environment() {
    println!("=== Starting com0com Diagnostic ===");
    let common_paths = [
        "C:\\Program Files (x86)\\com0com\\setupc.exe",
        "C:\\Program Files\\com0com\\setupc.exe",
        "C:\\Program Files (x86)\\com0com\\x64\\setupc.exe",
        "C:\\Program Files\\com0com\\x64\\setupc.exe",
    ];
    let known = Com0comManager::well_known_paths();
    assert_eq!(known.len(), common_paths.len());
    for (p, k) in common_paths.iter().zip(known.iter()) {
        assert_eq!(p, k);
        println!("  [MISSING] {}", p);
    }
    let locations = Com0comManager::registry_locations();
    assert_eq!(locations[0].key, "SOFTWARE\\com0com");
    assert_eq!(locations[1].key, "SOFTWARE\\WOW6432Node\\com0com");
    assert_eq!(locations[0].value, "Install_Dir");
    assert_eq!(locations[0].subdirs, vec!["".to_string(), "x64".to_string()]);
    assert_eq!(locations[1].subdirs, vec!["".to_string()]);
    assert_eq!(locations[0].file_name, "setupc.exe");
    assert_eq!(locations[1].file_name, "setupc.exe");
    println!("\nTesting Com0comManager::new()...");
    let none: Vec<PathProbe> =
        known.iter().map(|p| PathProbe { path: p.clone(), exists: false }).collect();
    match Com0comManager::new(&none) {
        Ok(_) => panic!("no path exists"),
        Err(e) => {
            assert!(matches!(e, SerialError::DriverNotInstalled));
            println!("  Manager creation FAILED: {:?}", e);
        }
    }
    match Com0comManager::new(&installed()) {
        Ok(manager) => {
            println!("  Manager created successfully.");
            assert_eq!(manager.get_setupc_path(), "C:\\Program Files\\com0com\\setupc.exe");
            assert_eq!(manager.get_admin_token().chars().count(), 36);
            let (_, outcome) = run(manager.list_pairs(), vec![Ok("".to_string())]);
            let pairs = pairs_of(outcome.unwrap());
            println!("  'list' success. Found {} pairs.", pairs.len());
            assert!(pairs.is_empty());
        }
        Err(e) => panic!("  Manager creation FAILED: {:?}", e),
    }
    println!("=== Diagnostic Finished ===");
}

#[test]
fn test_hub4com_detection() {
    let probes = vec![PathProbe {
        path: "C:\\Program Files\\com0com\\hub4com.exe".to_string(),
        exists: true,
    }];
    if Hub4comManager::is_installed(&probes) {
        println!("hub4com is installed");
    } else {
        panic!("hub4com not found");
    }
    assert_eq!(
        Hub4comManager::pick_hub4com_path(&Vec::new(), Some("/usr/bin/hub4com.exe".to_string())).unwrap(),
        "/usr/bin/hub4com.exe"
    );
    assert!(matches!(
        Hub4comManager::pick_hub4com_path(&Vec::new(), None),
        Err(SerialError::DriverNotInstalled)
    ));
    assert_eq!(Hub4comManager::well_known_paths().len(), 6);
}

#[test]
fn unbound_ports_fall_back_to_their_prefix() {
    let pairs = Com0comManager::parse_list_output("CNCA1 PortName=-\nCNCB1 PortName=-").unwrap();
    assert_eq!(pairs.len(), 1);
    assert_eq!(pairs[0].pair_id, 1);
    assert_eq!(pairs[0].port_a, "CNCA1");
    assert_eq!(pairs[0].port_b, "CNCB1");
}

#[test]
fn real_port_name_example() {
    let pairs = Com0comManager::parse_list_output(
        "CNCA0 PortName=COM#,RealPortName=COM9\nCNCB0 PortName=COM10 EmuBR=yes\n",
    )
    .unwrap();
    assert_eq!(pairs.len(), 1);
    assert_eq!(pairs[0].pair_id, 0);
    assert_eq!(pairs[0].port_a, "COM9");
    assert_eq!(pairs[0].port_b, "COM10");
}

#[test]
fn real_port_name_wins_whatever_follows() {
    let pairs = Com0comManager::parse_list_output(
        "CNCA3 RealPortName=COM7 PortName=COM5\nCNCB3 PortName=COM4,RealPortName=-,PortName=COM6\n",
    )
    .unwrap();
    assert_eq!(pairs.len(), 1);
    assert_eq!(pairs[0].port_a, "COM7");
    assert_eq!(pairs[0].port_b, "COM6");
}

#[test]
fn half_seen_pairs_are_dropped_and_ids_ascend() {
    let text = "CNCB7 PortName=COM20\r\n  CNCA2 PortName=X\nCNCA7 PortName=COM21\n\nCNCB2\tPortName=Y\nCNCA5 PortName=Z\nnoise here\nCNCA2 PortName=X2\n";
    let pairs = Com0comManager::parse_list_output(text).unwrap();
    let ids: Vec<u32> = pairs.iter().map(|p| p.pair_id).collect();
    assert_eq!(ids, vec![2, 7]);
    assert_eq!(pairs[0].port_a, "X2");
    assert_eq!(pairs[0].port_b, "Y");
    assert_eq!(pairs[1].port_a, "COM21");
    assert_eq!(pairs[1].port_b, "COM20");
    let again = Com0comManager::parse_list_output(text).unwrap();
    assert_eq!(again.len(), pairs.len());
    for (a, b) in again.iter().zip(pairs.iter()) {
        assert_eq!((a.pair_id, &a.port_a, &a.port_b), (b.pair_id, &b.port_a, &b.port_b));
    }
}

#[test]
fn prefixes_are_read_as_numerals() {
    assert_eq!(Com0comManager::parse_cnc_prefix("CNCA"), None);
    assert_eq!(Com0comManager::parse_cnc_prefix("CNCA+7"), Some((7, true)));
    assert_eq!(Com0comManager::parse_cnc_prefix("CNCB007"), Some((7, false)));
    assert_eq!(Com0comManager::parse_cnc_prefix("CNCB4294967295"), Some((4294967295, false)));
    assert_eq!(Com0comManager::parse_cnc_prefix("CNCB4294967296"), None);
    assert_eq!(Com0comManager::parse_cnc_prefix("CNCA-1"), None);
    assert_eq!(Com0comManager::parse_cnc_prefix("CNCC1"), None);
    assert_eq!(Com0comManager::parse_cnc_prefix("cnca1"), None);
    assert_eq!(Com0comManager::parse_cnc_prefix("CNCA1x"), None);
}

#[test]
fn create_installs_then_lists_and_takes_the_last() {
    let manager = Com0comManager::new(&installed()).unwrap();
    let (commands, outcome) = run(
        manager.create_pair("COM10", "-"),
        vec![
            Ok("installed".to_string()),
            Ok("CNCA0 PortName=A\nCNCB0 PortName=B\nCNCA4 PortName=COM10\nCNCB4 PortName=-\n".to_string()),
        ],
    );
    assert_eq!(
        commands,
        vec![
            vec!["install".to_string(), "PortName=COM10".to_string(), "PortName=-".to_string()],
            vec!["list".to_string()],
        ]
    );
    match outcome.unwrap() {
        TaskOutput::Pair(pair) => {
            assert_eq!(pair.pair_id, 4);
            assert_eq!(pair.port_a, "COM10");
            assert_eq!(pair.port_b, "CNCB4");
        }
        other => panic!("a pair was expected, not {:?}", other),
    }
    let (_, nothing) = run(
        manager.create_pair("COM#", "COM11"),
        vec![Ok("".to_string()), Ok("".to_string())],
    );
    assert!(matches!(nothing, Err(SerialError::DriverCommandFailed { .. })));
}

#[test]
fn rename_changes_a_then_b_and_stops_at_a_failure() {
    let manager = Com0comManager::new(&installed()).unwrap();
    let (commands, outcome) =
        run(manager.rename_pair(12, "COM30", "COM31"), vec![Ok(String::new()), Ok(String::new())]);
    assert_eq!(
        commands,
        vec![
            vec!["change".to_string(), "CNCA12".to_string(), "PortName=COM30".to_string()],
            vec!["change".to_string(), "CNCB12".to_string(), "PortName=COM31".to_string()],
        ]
    );
    assert!(matches!(outcome, Ok(TaskOutput::Done)));
    let (commands, outcome) = run(
        manager.rename_pair(12, "COM30", "COM31"),
        vec![Err(SerialError::DriverCommandFailed { stderr: "no".to_string() })],
    );
    assert_eq!(commands.len(), 1);
    match outcome {
        Err(SerialError::DriverCommandFailed { stderr }) => assert_eq!(stderr, "no"),
        other => panic!("the failure was expected, not {:?}", other),
    }
}

#[test]
fn remove_all_removes_each_listed_pair() {
    let manager = Com0comManager::new(&installed()).unwrap();
    let listing = "CNCA3 PortName=-\nCNCB3 PortName=-\nCNCA0 PortName=-\nCNCB0 PortName=-\nCNCA9 PortName=-\n";
    let (commands, outcome) = run(
        manager.remove_all(),
        vec![Ok(listing.to_string()), Ok(String::new()), Ok(String::new())],
    );
    assert_eq!(
        commands,
        vec![
            vec!["list".to_string()],
            vec!["remove".to_string(), "0".to_string()],
            vec!["remove".to_string(), "3".to_string()],
        ]
    );
    assert!(matches!(outcome, Ok(TaskOutput::Done)));
    let (commands, outcome) = run(manager.remove_pair(4000000000), vec![Ok(String::new())]);
    assert_eq!(commands, vec![vec!["remove".to_string(), "4000000000".to_string()]]);
    assert!(matches!(outcome, Ok(TaskOutput::Done)));
    let (commands, outcome) = run(
        manager.remove_all(),
        vec![Ok(listing.to_string()), Err(SerialError::EscalationTimeout)],
    );
    assert_eq!(commands.len(), 2);
    assert!(matches!(outcome, Err(SerialError::EscalationTimeout)));
    let phase = TaskPhase::RemovingEach { remaining: vec![] };
    assert!(matches!(phase.advance(Ok(String::new())), TaskStep::Finished(Ok(TaskOutput::Done))));
}

#[test]
fn free_numbers_skip_what_is_taken() {
    let existing = vec!["COM1".to_string(), "com10".to_string(), "Com12".to_string(), "COM011".to_string()];
    assert_eq!(Com0comManager::available_com_numbers(&existing, 2), vec![11, 13]);
    assert_eq!(Com0comManager::available_com_numbers(&existing, 0), Vec::<u32>::new());
    assert_eq!(Com0comManager::available_com_numbers(&Vec::new(), 3), vec![10, 11, 12]);
    let all = Com0comManager::available_com_numbers(&existing, 1000);
    assert_eq!(all.len(), 244);
    assert_eq!(all[0], 11);
    assert_eq!(all[243], 255);
    let full: Vec<String> = (10..256).map(|n| format!("COM{}", n)).collect();
    assert!(Com0comManager::available_com_numbers(&full, 2).is_empty());
    let manager = Com0comManager::new(&installed()).unwrap();
    assert_eq!(manager.find_available_com_numbers(&existing, 2), vec![11, 13]);
    assert_eq!(manager.find_available_com_numbers(&Vec::new(), 2), vec![10, 11]);
    assert!(manager.find_available_com_numbers(&full, 2).is_empty());
}

#[test]
fn automatic_names_are_written_as_port_names() {
    let manager = Com0comManager::new(&installed()).unwrap();
    match manager.create_pair("-", "-") {
        TaskStep::Run { args, then } => {
            assert_eq!(args, vec!["install", "PortName=-", "PortName=-"]);
            assert!(matches!(then, TaskPhase::Installing));
        }
        other => panic!("an install was expected, not {:?}", other),
    }
    match manager.rename_pair(3, "-", "COM7") {
        TaskStep::Run { args, .. } => assert_eq!(args, vec!["change", "CNCA3", "PortName=-"]),
        other => panic!("a change was expected, not {:?}", other),
    }
}

#[test]
fn free_numbers_go_by_the_names_in_uppercase() {
    let existing = vec!["COM3".to_string(), "COM10".to_string(), "com12".to_string()];
    assert_eq!(Com0comManager::available_com_numbers(&existing, 3), vec![11, 13, 14]);
    let manager = Com0comManager::new(&installed()).unwrap();
    assert_eq!(manager.find_available_com_numbers(&existing, 3), vec![11, 13, 14]);
    let taken = vec!["COM3".to_string(), "COM10".to_string(), "COM12".to_string()];
    assert_eq!(Com0comManager::free_com_numbers(&taken, 3), vec![11, 13, 14]);
    assert_eq!(Com0comManager::free_com_numbers(&existing, 3), vec![11, 12, 13]);
    assert_eq!(Com0comManager::free_com_numbers(&taken, 0), Vec::<u32>::new());
    assert_eq!(Com0comManager::free_com_numbers(&Vec::new(), 1), vec![10]);
    let all = Com0comManager::free_com_numbers(&taken, usize::MAX);
    assert_eq!(all.len(), 244);
    assert_eq!(all[243], 255);
}

#[test]
fn pairs_come_by_ascending_id_whatever_the_order_of_the_lines() {
    let output = "CNCB7 PortName=COM27\n\
                  CNCA4294967295 PortName=TOP\n\
                  CNCA2 PortName=COM20\n\
                  CNCA7 PortName=old\n\
                  CNCB0 PortName=-\n\
                  CNCB2 PortName=COM21\n\
                  CNCA5 PortName=alone\n\
                  CNCA7 PortName=COM26\n\
                  CNCB4294967295 PortName=COM#,RealPortName=COM99\n\
                  CNCA0 PortName=COM1\n";
    let pairs = Com0comManager::parse_list_output(output).unwrap();
    let found: Vec<(u32, &str, &str)> =
        pairs.iter().map(|p| (p.pair_id, p.port_a.as_str(), p.port_b.as_str())).collect();
    assert_eq!(
        found,
        vec![
            (0, "COM1", "CNCB0"),
            (2, "COM20", "COM21"),
            (7, "COM26", "COM27"),
            (4294967295, "TOP", "COM99"),
        ]
    );
}
