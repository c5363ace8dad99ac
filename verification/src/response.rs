//! The answer to a single remote command, and how it is put together.
//!
//! A command is run once on a fresh connection. Its output is collected up
//! to a limit; the answer is either the collected output with the exit code
//! or an error with its kind.

use crate::text::{decode_lossy, lossy_text};
use vstd::prelude::*;
use vstd::string::*;

verus! {

/// Most output bytes a single command may produce: 64 KiB.
pub const EXEC_OUTPUT_LIMIT: usize = 64 * 1024;

/// Longest wait for a connection, and for each read and write on it, in
/// seconds.
pub const SSH_TIMEOUT_SECS: u64 = 10;

/// The exit code reported where the remote side gave none.
pub const NO_EXIT_CODE: i32 = -1;

/// What a command that ran left behind.
#[derive(Clone, Debug, PartialEq, Eq)]
pub struct SshExecResult {
    pub success: bool,
    pub exit_code: i32,
    pub stdout: String,
}

/// The kinds of failure a session can meet.
#[derive(Clone, Copy, Debug, PartialEq, Eq, Structural)]
pub enum SshErrorKind {
    Network,
    Auth,
    Command,
    Timeout,
    Internal,
}

/// A failure with its kind and a message for the user.
#[derive(Clone, Debug, PartialEq, Eq)]
pub struct SshError {
    pub kind: SshErrorKind,
    pub message: String,
}

/// The answer to a command: what it left behind, or why it did not run to
/// its end. `ok` tells the two apart on the wire.
#[derive(Clone, Debug, PartialEq, Eq)]
pub enum SshResponse {
    Success { ok: bool, data: SshExecResult },
    Failure { ok: bool, error: SshError },
}

/// An [`SshResponse`] with its strings as character sequences.
pub ghost enum SshResponseView {
    Success { ok: bool, success: bool, exit_code: i32, stdout: Seq<char> },
    Failure { ok: bool, kind: SshErrorKind, message: Seq<char> },
}

impl View for SshResponse {
    type V = SshResponseView;

    open spec fn view(&self) -> SshResponseView {
        match self {
            SshResponse::Success { ok, data } => SshResponseView::Success {
                ok: *ok,
                success: data.success,
                exit_code: data.exit_code,
                stdout: data.stdout@,
            },
            SshResponse::Failure { ok, error } => SshResponseView::Failure {
                ok: *ok,
                kind: error.kind,
                message: error.message@,
            },
        }
    }
}

/// The failing answer of kind `kind` with message `msg`.
pub fn ssh_err(kind: SshErrorKind, msg: String) -> (response: SshResponse)
    ensures
        response@ == (SshResponseView::Failure { ok: false, kind, message: msg@ }),
{
    SshResponse::Failure { ok: false, error: SshError { kind, message: msg } }
}

/// The exit code to report for what the remote side gave.
pub open spec fn reported_exit_code(exit_status: Option<i32>) -> i32 {
    match exit_status {
        Some(code) => code,
        None => NO_EXIT_CODE,
    }
}

/// The exit code to report: the remote side's, or [`NO_EXIT_CODE`] where it
/// gave none.
pub fn exit_code_or_default(exit_status: Option<i32>) -> (code: i32)
    ensures
        code == reported_exit_code(exit_status),
{
    match exit_status {
        Some(code) => code,
        None => NO_EXIT_CODE,
    }
}

/// The answer for a command that ran to its end with `stdout` as its
/// decoded output. The command succeeded if its exit code is zero.
pub fn ssh_ok(exit_status: Option<i32>, stdout: String) -> (response: SshResponse)
    ensures
        response@ == (SshResponseView::Success {
            ok: true,
            success: reported_exit_code(exit_status) == 0,
            exit_code: reported_exit_code(exit_status),
            stdout: stdout@,
        }),
{
    let exit_code = exit_code_or_default(exit_status);
    SshResponse::Success { ok: true, data: SshExecResult { success: exit_code == 0, exit_code, stdout } }
}

/// The answer for a command that ran to its end and wrote `output`.
pub fn exec_finished(exit_status: Option<i32>, output: &[u8]) -> (response: SshResponse)
    ensures
        response@ == (SshResponseView::Success {
            ok: true,
            success: reported_exit_code(exit_status) == 0,
            exit_code: reported_exit_code(exit_status),
            stdout: lossy_text(output@),
        }),
{
    ssh_ok(exit_status, decode_lossy(output))
}

/// Where a single command can fail.
#[derive(Clone, Copy, Debug, PartialEq, Eq, Structural)]
pub enum ExecFailure {
    /// The host has no stored password.
    NoPassword,
    /// The host's address did not resolve.
    BadAddress,
    /// The connection was not made in time.
    ConnectTimeout,
    /// No session could be created.
    NoSession,
    /// The handshake failed.
    Handshake,
    /// The remote side turned the credentials down.
    AuthRejected,
    /// No channel could be opened.
    Channel,
    /// The command could not be started.
    Exec,
    /// Reading the command's output failed.
    Read,
    /// The command wrote more than [`EXEC_OUTPUT_LIMIT`] bytes.
    OutputLimit,
}

impl ExecFailure {
    /// The kind under which the failure is reported.
    pub open spec fn kind(self) -> SshErrorKind {
        match self {
            ExecFailure::NoPassword => SshErrorKind::Auth,
            ExecFailure::BadAddress => SshErrorKind::Network,
            ExecFailure::ConnectTimeout => SshErrorKind::Timeout,
            ExecFailure::NoSession => SshErrorKind::Internal,
            ExecFailure::Handshake => SshErrorKind::Network,
            ExecFailure::AuthRejected => SshErrorKind::Auth,
            ExecFailure::Channel => SshErrorKind::Internal,
            ExecFailure::Exec => SshErrorKind::Command,
            ExecFailure::Read => SshErrorKind::Command,
            ExecFailure::OutputLimit => SshErrorKind::Command,
        }
    }

    /// The message under which the failure is reported, given what the
    /// transport said of it.
    pub open spec fn message(self, detail: Seq<char>) -> Seq<char> {
        match self {
            ExecFailure::NoPassword => "Password auth required"@,
            ExecFailure::BadAddress => "Invalid host address"@,
            ExecFailure::ConnectTimeout => "SSH connection timeout"@,
            ExecFailure::NoSession => "Failed to create SSH session"@,
            ExecFailure::Handshake => "Handshake failed: "@ + detail,
            ExecFailure::AuthRejected => "SSH authentication failed"@,
            ExecFailure::Channel => detail,
            ExecFailure::Exec => detail,
            ExecFailure::Read => detail,
            ExecFailure::OutputLimit => "Command output exceeded limit"@,
        }
    }
}

/// The answer for a command that failed at `failure`. `detail` is what the
/// transport said; it is quoted for a failed handshake, channel, start or
/// read, and left out otherwise.
pub fn exec_failed(failure: ExecFailure, detail: &str) -> (response: SshResponse)
    ensures
        response@ == (SshResponseView::Failure {
            ok: false,
            kind: failure.kind(),
            message: failure.message(detail@),
        }),
{
    match failure {
        ExecFailure::NoPassword => ssh_err(
            SshErrorKind::Auth,
            String::from_str("Password auth required"),
        ),
        ExecFailure::BadAddress => ssh_err(
            SshErrorKind::Network,
            String::from_str("Invalid host address"),
        ),
        ExecFailure::ConnectTimeout => ssh_err(
            SshErrorKind::Timeout,
            String::from_str("SSH connection timeout"),
        ),
        ExecFailure::NoSession => ssh_err(
            SshErrorKind::Internal,
            String::from_str("Failed to create SSH session"),
        ),
        ExecFailure::Handshake => {
            let mut message = String::from_str("Handshake failed: ");
            message.append(detail);
            ssh_err(SshErrorKind::Network, message)
        },
        ExecFailure::AuthRejected => ssh_err(
            SshErrorKind::Auth,
            String::from_str("SSH authentication failed"),
        ),
        ExecFailure::Channel => ssh_err(SshErrorKind::Internal, String::from_str(detail)),
        ExecFailure::Exec => ssh_err(SshErrorKind::Command, String::from_str(detail)),
        ExecFailure::Read => ssh_err(SshErrorKind::Command, String::from_str(detail)),
        ExecFailure::OutputLimit => ssh_err(
            SshErrorKind::Command,
            String::from_str("Command output exceeded limit"),
        ),
    }
}

/// What to do after a read of the command's output.
#[derive(Clone, Copy, Debug, PartialEq, Eq, Structural)]
pub enum ExecRead {
    /// Read on.
    More,
    /// The stream has ended: fetch the exit status.
    Finished,
    /// The limit is broken: close the channel and report
    /// [`ExecFailure::OutputLimit`].
    LimitExceeded,
}

/// The answer to a read that gave `chunk`, with `collected` bytes in hand.
pub open spec fn exec_read(collected: Seq<u8>, chunk: Seq<u8>) -> ExecRead {
    if chunk.len() == 0 {
        ExecRead::Finished
    } else if collected.len() + chunk.len() > EXEC_OUTPUT_LIMIT {
        ExecRead::LimitExceeded
    } else {
        ExecRead::More
    }
}

/// Adds what a read gave to the output collected so far. An empty read ends
/// the stream. A chunk that takes the output over [`EXEC_OUTPUT_LIMIT`] is
/// still added, and the limit is reported as broken.
pub fn collect_output(output: &mut Vec<u8>, chunk: Vec<u8>) -> (next: ExecRead)
    ensures
        final(output)@ == old(output)@ + chunk@,
        next == exec_read(old(output)@, chunk@),
{
    let mut chunk = chunk;
    if chunk.len() == 0 {
        return ExecRead::Finished;
    }
    output.append(&mut chunk);
    if output.len() > EXEC_OUTPUT_LIMIT {
        ExecRead::LimitExceeded
    } else {
        ExecRead::More
    }
}

} // verus!
