use nethopper::response::{
    collect_output, exec_failed, exec_finished, exit_code_or_default, ssh_err, ssh_ok, ExecFailure,
    ExecRead, SshError, SshErrorKind, SshExecResult, SshResponse, EXEC_OUTPUT_LIMIT, NO_EXIT_CODE,
    SSH_TIMEOUT_SECS,
};

fn failure(kind: SshErrorKind, message: &str) -> SshResponse {
    SshResponse::Failure { ok: false, error: SshError { kind, message: message.to_string() } }
}

#[test]
fn response_constants() {
    assert_eq!(EXEC_OUTPUT_LIMIT, 65536);
    assert_eq!(SSH_TIMEOUT_SECS, 10);
    assert_eq!(NO_EXIT_CODE, -1);
}

#[test]
fn ssh_err_builds_a_failing_answer() {
    assert_eq!(
        ssh_err(SshErrorKind::Timeout, "SSH connection timeout".to_string()),
        failure(SshErrorKind::Timeout, "SSH connection timeout")
    );
    assert_eq!(ssh_err(SshErrorKind::Internal, String::new()), failure(SshErrorKind::Internal, ""));
}

#[test]
fn ssh_ok_tells_success_by_the_exit_code() {
    assert_eq!(
        ssh_ok(Some(0), "fine".to_string()),
        SshResponse::Success {
            ok: true,
            data: SshExecResult { success: true, exit_code: 0, stdout: "fine".to_string() },
        }
    );
    assert_eq!(
        ssh_ok(Some(2), String::new()),
        SshResponse::Success {
            ok: true,
            data: SshExecResult { success: false, exit_code: 2, stdout: String::new() },
        }
    );
    assert_eq!(
        ssh_ok(None, "x".to_string()),
        SshResponse::Success {
            ok: true,
            data: SshExecResult { success: false, exit_code: -1, stdout: "x".to_string() },
        }
    );
}

#[test]
fn exit_code_defaults_to_minus_one() {
    assert_eq!(exit_code_or_default(Some(0)), 0);
    assert_eq!(exit_code_or_default(Some(-7)), -7);
    assert_eq!(exit_code_or_default(Some(255)), 255);
    assert_eq!(exit_code_or_default(None), -1);
}

#[test]
fn exec_finished_decodes_the_output() {
    assert_eq!(
        exec_finished(Some(0), b"total 0\n"),
        SshResponse::Success {
            ok: true,
            data: SshExecResult { success: true, exit_code: 0, stdout: "total 0\n".to_string() },
        }
    );
    assert_eq!(
        exec_finished(Some(1), &[0x61, 0xff, 0x62]),
        SshResponse::Success {
            ok: true,
            data: SshExecResult { success: false, exit_code: 1, stdout: "a\u{fffd}b".to_string() },
        }
    );
}

#[test]
fn exec_failed_reports_kind_and_message() {
    let detail = "[Session(-5)] Unable to exchange encryption keys";
    assert_eq!(
        exec_failed(ExecFailure::NoPassword, detail),
        failure(SshErrorKind::Auth, "Password auth required")
    );
    assert_eq!(
        exec_failed(ExecFailure::BadAddress, detail),
        failure(SshErrorKind::Network, "Invalid host address")
    );
    assert_eq!(
        exec_failed(ExecFailure::ConnectTimeout, detail),
        failure(SshErrorKind::Timeout, "SSH connection timeout")
    );
    assert_eq!(
        exec_failed(ExecFailure::NoSession, detail),
        failure(SshErrorKind::Internal, "Failed to create SSH session")
    );
    assert_eq!(
        exec_failed(ExecFailure::Handshake, detail),
        failure(
            SshErrorKind::Network,
            "Handshake failed: [Session(-5)] Unable to exchange encryption keys"
        )
    );
    assert_eq!(
        exec_failed(ExecFailure::AuthRejected, detail),
        failure(SshErrorKind::Auth, "SSH authentication failed")
    );
    assert_eq!(exec_failed(ExecFailure::Channel, detail), failure(SshErrorKind::Internal, detail));
    assert_eq!(exec_failed(ExecFailure::Exec, detail), failure(SshErrorKind::Command, detail));
    assert_eq!(exec_failed(ExecFailure::Read, detail), failure(SshErrorKind::Command, detail));
    assert_eq!(
        exec_failed(ExecFailure::OutputLimit, detail),
        failure(SshErrorKind::Command, "Command output exceeded limit")
    );
}

#[test]
fn collect_output_appends_and_reads_on() {
    let mut output = b"ab".to_vec();
    assert_eq!(collect_output(&mut output, b"cd".to_vec()), ExecRead::More);
    assert_eq!(output, b"abcd".to_vec());
}

#[test]
fn collect_output_ends_on_an_empty_read() {
    let mut output = b"ab".to_vec();
    assert_eq!(collect_output(&mut output, Vec::new()), ExecRead::Finished);
    assert_eq!(output, b"ab".to_vec());
}

#[test]
fn collect_output_reports_the_broken_limit() {
    let mut output = vec![0u8; EXEC_OUTPUT_LIMIT - 1];
    assert_eq!(collect_output(&mut output, vec![1]), ExecRead::More);
    assert_eq!(output.len(), EXEC_OUTPUT_LIMIT);
    assert_eq!(collect_output(&mut output, vec![2]), ExecRead::LimitExceeded);
    assert_eq!(output.len(), EXEC_OUTPUT_LIMIT + 1);
    assert_eq!(output[EXEC_OUTPUT_LIMIT], 2);
}
