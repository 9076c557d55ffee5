use contam_bridge::messages::{
    engine_failure_message, format_exit_code, read_error_message, spawn_error_message,
    write_error_message,
};

#[test]
fn exit_code_none() {
    assert_eq!(format_exit_code(None), "None");
}

#[test]
fn exit_code_zero() {
    assert_eq!(format_exit_code(Some(0)), "Some(0)");
}

#[test]
fn exit_code_positive() {
    assert_eq!(format_exit_code(Some(123)), "Some(123)");
}

#[test]
fn exit_code_negative() {
    assert_eq!(format_exit_code(Some(-5)), "Some(-5)");
}

#[test]
fn write_error_is_tagged() {
    assert_eq!(
        write_error_message("disk full"),
        "Failed to write input file: disk full"
    );
}

#[test]
fn spawn_error_names_path() {
    let msg = spawn_error_message("/opt/app/contam_engine", "os error 2");
    assert_eq!(
        msg,
        "Failed to run engine '/opt/app/contam_engine': os error 2"
    );
    assert!(msg.contains("/opt/app/contam_engine"));
}

#[test]
fn failure_carries_code_and_output() {
    let msg = engine_failure_message(Some(2), "diagnostic line", "bad input");
    assert_eq!(
        msg,
        "Engine failed (exit code Some(2)):\ndiagnostic line\nbad input"
    );
    assert!(msg.contains("Some(2)"));
    assert!(msg.contains("diagnostic line"));
    assert!(msg.contains("bad input"));
}

#[test]
fn failure_without_code() {
    let msg = engine_failure_message(None, "", "");
    assert_eq!(msg, "Engine failed (exit code None):\n\n");
}

#[test]
fn read_error_is_tagged() {
    assert_eq!(
        read_error_message("no such file"),
        "Failed to read output file: no such file"
    );
}
