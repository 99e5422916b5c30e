use video_snapshot::executor::{evaluate_outcome, ExecutionOutcome, ExtractError};

fn outcome(exit_success: bool, timed_out: bool, stderr: &[u8]) -> ExecutionOutcome {
    ExecutionOutcome {
        exit_success,
        stdout: Vec::new(),
        stderr: stderr.to_vec(),
        timed_out,
    }
}

#[test]
fn successful_run_with_output_is_ok() {
    let r = evaluate_outcome(&outcome(true, false, b""), true, 1024);
    assert!(r.is_ok());
}

#[test]
fn timeout_is_reported_as_timeout_error() {
    let r = evaluate_outcome(&outcome(true, true, b""), true, 1024);
    assert!(matches!(r, Err(ExtractError::TimeoutError)));
    // The timeout verdict wins even when everything else looks bad too.
    let r = evaluate_outcome(&outcome(false, true, b"boom"), false, 0);
    assert!(matches!(r, Err(ExtractError::TimeoutError)));
}

#[test]
fn nonzero_exit_carries_standard_error() {
    let r = evaluate_outcome(&outcome(false, false, b"codec not found"), true, 10);
    match r {
        Err(ExtractError::ExecutionFailed(stderr)) => {
            assert_eq!(stderr, b"codec not found".to_vec());
        }
        other => panic!("expected ExecutionFailed, got {}", describe(&other)),
    }
}

#[test]
fn missing_output_fails_despite_zero_exit() {
    let r = evaluate_outcome(&outcome(true, false, b""), false, 0);
    assert!(matches!(r, Err(ExtractError::OutputMissing)));
}

#[test]
fn empty_output_fails_despite_zero_exit() {
    let r = evaluate_outcome(&outcome(true, false, b""), true, 0);
    assert!(matches!(r, Err(ExtractError::OutputEmpty)));
}

#[test]
fn kind_messages_name_each_error() {
    assert_eq!(
        ExtractError::SpawnError("x".to_string()).kind_message(),
        "failed to launch the media tool"
    );
    assert_eq!(ExtractError::TimeoutError.kind_message(), "media tool timed out");
    assert_eq!(
        ExtractError::JoinError("x".to_string()).kind_message(),
        "media tool task could not be joined"
    );
    assert_eq!(
        ExtractError::ExecutionFailed(Vec::new()).kind_message(),
        "media tool exited with an error"
    );
    assert_eq!(
        ExtractError::OutputMissing.kind_message(),
        "output file was not created"
    );
    assert_eq!(ExtractError::OutputEmpty.kind_message(), "output file is empty");
    assert_eq!(
        ExtractError::IoError("x".to_string()).kind_message(),
        "filesystem error around the output"
    );
}

fn describe(r: &Result<(), ExtractError>) -> String {
    match r {
        Ok(()) => "Ok".to_string(),
        Err(e) => e.kind_message().to_string(),
    }
}
