use contam_bridge::bridge::{engine_args, start, temp_file_path, Action, Event, ExitOutcome};

fn ok_exit(stdout: &str, stderr: &str) -> ExitOutcome {
    ExitOutcome {
        success: true,
        code: Some(0),
        stdout: stdout.to_string(),
        stderr: stderr.to_string(),
    }
}

#[test]
fn joins_paths() {
    assert_eq!(temp_file_path("/tmp", "/", "contam_input.json"), "/tmp/contam_input.json");
}

#[test]
fn argument_list_shape() {
    let args = engine_args("/tmp/contam_input.json", "/tmp/contam_output.json");
    assert_eq!(
        args,
        vec![
            "-i".to_string(),
            "/tmp/contam_input.json".to_string(),
            "-o".to_string(),
            "/tmp/contam_output.json".to_string(),
            "-v".to_string(),
        ]
    );
}

#[test]
fn start_writes_payload_to_input_file() {
    let (bridge, action) = start("/tmp", "/", "contam_engine".to_string(), "{\"a\":1}".to_string());
    assert_eq!(bridge.input_path, "/tmp/contam_input.json");
    assert_eq!(bridge.output_path, "/tmp/contam_output.json");
    assert_eq!(
        action,
        Action::WriteInput {
            path: "/tmp/contam_input.json".to_string(),
            contents: "{\"a\":1}".to_string(),
        }
    );
}

#[test]
fn round_trip_identity() {
    // An engine stub that copies its input file to its output file unchanged:
    // the read-back text is exactly the submitted payload.
    let payload = "{\"samples\": [1, 2, 3]}".to_string();
    let (mut bridge, _) = start("/tmp", "/", "engine".to_string(), payload.clone());

    let a1 = bridge.step(Event::WriteDone(Ok(())));
    match a1 {
        Action::SpawnEngine { program, args } => {
            assert_eq!(program, "engine");
            assert_eq!(args[0], "-i");
            assert_eq!(args[1], "/tmp/contam_input.json");
            assert_eq!(args[2], "-o");
            assert_eq!(args[3], "/tmp/contam_output.json");
            assert_eq!(args[4], "-v");
        }
        other => panic!("expected a spawn request, got {:?}", other),
    }

    let a2 = bridge.step(Event::SpawnDone(Ok(ok_exit("", ""))));
    assert_eq!(
        a2,
        Action::ReadOutput {
            path: "/tmp/contam_output.json".to_string(),
        }
    );

    let a3 = bridge.step(Event::ReadDone(Ok(payload.clone())));
    assert_eq!(
        a3,
        Action::RemoveBoth {
            input_path: "/tmp/contam_input.json".to_string(),
            output_path: "/tmp/contam_output.json".to_string(),
        }
    );

    let a4 = bridge.step(Event::CleanupDone);
    assert_eq!(
        a4,
        Action::Finish {
            result: Ok(payload),
        }
    );
}

#[test]
fn write_failure_finishes_without_cleanup() {
    // The input file was never created, so no cleanup request precedes the end.
    let (mut bridge, _) = start("/tmp", "/", "engine".to_string(), "{}".to_string());
    let a = bridge.step(Event::WriteDone(Err("disk full".to_string())));
    assert_eq!(
        a,
        Action::Finish {
            result: Err("Failed to write input file: disk full".to_string()),
        }
    );
}

#[test]
fn spawn_failure_names_attempted_path() {
    let (mut bridge, _) = start("/tmp", "/", "/opt/app/contam_engine".to_string(), "{}".to_string());
    bridge.step(Event::WriteDone(Ok(())));
    let a = bridge.step(Event::SpawnDone(Err("No such file or directory (os error 2)".to_string())));
    assert_eq!(
        a,
        Action::RemoveBoth {
            input_path: "/tmp/contam_input.json".to_string(),
            output_path: "/tmp/contam_output.json".to_string(),
        }
    );
    let done = bridge.step(Event::CleanupDone);
    match done {
        Action::Finish { result: Err(msg) } => {
            assert_eq!(
                msg,
                "Failed to run engine '/opt/app/contam_engine': No such file or directory (os error 2)"
            );
            assert!(msg.contains("/opt/app/contam_engine"));
        }
        other => panic!("expected a failure, got {:?}", other),
    }
}

#[test]
fn nonzero_exit_reports_code_and_output() {
    let (mut bridge, _) = start("/tmp", "/", "engine".to_string(), "{}".to_string());
    bridge.step(Event::WriteDone(Ok(())));
    let outcome = ExitOutcome {
        success: false,
        code: Some(3),
        stdout: "parsing input".to_string(),
        stderr: "invalid sample block".to_string(),
    };
    let a = bridge.step(Event::SpawnDone(Ok(outcome)));
    assert_eq!(
        a,
        Action::RemoveBoth {
            input_path: "/tmp/contam_input.json".to_string(),
            output_path: "/tmp/contam_output.json".to_string(),
        }
    );
    let done = bridge.step(Event::CleanupDone);
    match done {
        Action::Finish { result: Err(msg) } => {
            assert_eq!(
                msg,
                "Engine failed (exit code Some(3)):\nparsing input\ninvalid sample block"
            );
            assert!(msg.contains("Some(3)"));
            assert!(msg.contains("parsing input"));
            assert!(msg.contains("invalid sample block"));
        }
        other => panic!("expected a failure, got {:?}", other),
    }
}

#[test]
fn killed_engine_reports_missing_code() {
    let (mut bridge, _) = start("/tmp", "/", "engine".to_string(), "{}".to_string());
    bridge.step(Event::WriteDone(Ok(())));
    let outcome = ExitOutcome {
        success: false,
        code: None,
        stdout: String::new(),
        stderr: "killed".to_string(),
    };
    bridge.step(Event::SpawnDone(Ok(outcome)));
    let done = bridge.step(Event::CleanupDone);
    match done {
        Action::Finish { result: Err(msg) } => {
            assert_eq!(msg, "Engine failed (exit code None):\n\nkilled");
        }
        other => panic!("expected a failure, got {:?}", other),
    }
}

#[test]
fn read_failure_is_tagged_and_cleaned_up() {
    let (mut bridge, _) = start("/tmp", "/", "engine".to_string(), "{}".to_string());
    bridge.step(Event::WriteDone(Ok(())));
    bridge.step(Event::SpawnDone(Ok(ok_exit("", ""))));
    let a = bridge.step(Event::ReadDone(Err("permission denied".to_string())));
    assert_eq!(
        a,
        Action::RemoveBoth {
            input_path: "/tmp/contam_input.json".to_string(),
            output_path: "/tmp/contam_output.json".to_string(),
        }
    );
    let done = bridge.step(Event::CleanupDone);
    assert_eq!(
        done,
        Action::Finish {
            result: Err("Failed to read output file: permission denied".to_string()),
        }
    );
}

#[test]
fn concurrent_invocations_share_temp_files() {
    // Documented hazard: two invocations with different payloads target the
    // very same temp files, so they can observe each other's data.
    let (first, _) = start("/tmp", "/", "engine".to_string(), "{\"run\": 1}".to_string());
    let (second, _) = start("/tmp", "/", "other_engine".to_string(), "{\"run\": 2}".to_string());
    assert_eq!(first.input_path, second.input_path);
    assert_eq!(first.output_path, second.output_path);
}
