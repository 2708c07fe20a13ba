//! The error taxonomy: a three-level causal chain
//! `ShellError` -> `CommandError` -> `BuiltinError` -> underlying cause.
//!
//! Underlying causes from the operating system and from argument parsing are
//! carried as their display text, so that every level of the chain stays plain
//! data and rendering the chain is ordinary verified code. Nothing is mutated
//! after an error is constructed.

use vstd::prelude::*;

use crate::decimal::dec_int;
use crate::decimal::i32_to_string;

verus! {

/// Failure to acquire a shared resource (a table or file lock) that a builtin
/// needed; carries the lock's own report as text.
#[derive(Debug, Clone, PartialEq, Eq)]
pub struct LockError {
    pub msg: String,
}

/// A failure inside an in-process builtin command, sorted by origin.
#[derive(Debug, Clone, PartialEq, Eq)]
pub enum BuiltinError {
    /// Malformed arguments, as reported by the argument parser.
    Clap(String),
    /// Wrapper for a generic I/O error.
    Io(String),
    /// Wrapper for a generic OS-call error (most likely I/O related).
    Nix(String),
    /// Wrapper for a failure to lock a shared resource.
    Lock(LockError),
    /// An already-formatted, opaque downstream failure folded in so it can
    /// still be displayed and chained.
    Other(String),
}

/// A failure while setting up or running one command of a pipeline.
#[derive(Debug, Clone, PartialEq, Eq)]
pub enum CommandError {
    /// The spawn call itself failed; the child never began running.
    StartRealCommand(String),
    /// Retrieving a child's exit status failed.
    RealCommandStatus(String),
    /// The OS refused to duplicate a descriptor onto `fd`.
    DupFd { err: String, fd: i32 },
    /// A requested destination descriptor lies outside the representable
    /// range; no OS call is attempted for it.
    InvalidFd(i32),
    /// Creating an inter-stage pipe failed.
    Pipe(String),
    /// Closing a pipe end failed.
    PipeIo(String),
    /// Opening `filename` and installing it at `fd` failed.
    FdAsFile { err: String, fd: i32, filename: String },
    /// A builtin command failed.
    Builtin(BuiltinError),
}

/// The top-level reportable error: a `CommandError` annotated with the display
/// name of the command that produced it.
#[derive(Debug, Clone, PartialEq, Eq)]
pub enum ShellError {
    /// A command failed; `cmdname` is its display name.
    Command { err: CommandError, cmdname: String },
}

/// The display text of a builtin failure: each wrapper shows its cause's own
/// report unchanged.
pub open spec fn builtin_error_msg(e: BuiltinError) -> Seq<char> {
    match e {
        BuiltinError::Clap(s) => s@,
        BuiltinError::Io(s) => s@,
        BuiltinError::Nix(s) => s@,
        BuiltinError::Lock(l) => l.msg@,
        BuiltinError::Other(s) => s@,
    }
}

/// The display text of a command failure, with the root cause's original
/// message intact.
pub open spec fn command_error_msg(e: CommandError) -> Seq<char> {
    match e {
        CommandError::StartRealCommand(s) => s@,
        CommandError::RealCommandStatus(s) => "could not get exit status: "@ + s@,
        CommandError::DupFd { err, fd } => "could not duplicate fd "@ + dec_int(fd as int) + ": "@
            + err@,
        CommandError::InvalidFd(fd) => "bad fd number ("@ + dec_int(fd as int) + ")"@,
        CommandError::Pipe(s) => s@,
        CommandError::PipeIo(s) => s@,
        CommandError::FdAsFile { err, fd, filename } => "could not set up fd "@ + dec_int(fd as int)
            + " as file "@ + filename@ + ": "@ + err@,
        CommandError::Builtin(b) => builtin_error_msg(b),
    }
}

/// The user-facing text of a shell error: the offending command's display name,
/// then the chain of causes.
pub open spec fn shell_error_msg(e: ShellError) -> Seq<char> {
    match e {
        ShellError::Command { err, cmdname } => cmdname@ + ": "@ + command_error_msg(err),
    }
}

impl BuiltinError {
    /// Renders this failure for display.
    pub fn display(&self) -> (s: String)
        ensures
            s@ == builtin_error_msg(*self),
    {
        match self {
            BuiltinError::Clap(s) => s.clone(),
            BuiltinError::Io(s) => s.clone(),
            BuiltinError::Nix(s) => s.clone(),
            BuiltinError::Lock(l) => l.msg.clone(),
            BuiltinError::Other(s) => s.clone(),
        }
    }
}

impl CommandError {
    /// Renders this failure for display, embedding the underlying cause.
    pub fn display(&self) -> (s: String)
        ensures
            s@ == command_error_msg(*self),
    {
        match self {
            CommandError::StartRealCommand(s) => s.clone(),
            CommandError::RealCommandStatus(s) => {
                let mut r = String::from_str("could not get exit status: ");
                r.append(s.as_str());
                r
            },
            CommandError::DupFd { err, fd } => {
                let mut r = String::from_str("could not duplicate fd ");
                r.append(i32_to_string(*fd).as_str());
                r.append(": ");
                r.append(err.as_str());
                proof {
                    assert(r@ =~= command_error_msg(*self));
                }
                r
            },
            CommandError::InvalidFd(fd) => {
                let mut r = String::from_str("bad fd number (");
                r.append(i32_to_string(*fd).as_str());
                r.append(")");
                proof {
                    assert(r@ =~= command_error_msg(*self));
                }
                r
            },
            CommandError::Pipe(s) => s.clone(),
            CommandError::PipeIo(s) => s.clone(),
            CommandError::FdAsFile { err, fd, filename } => {
                let mut r = String::from_str("could not set up fd ");
                r.append(i32_to_string(*fd).as_str());
                r.append(" as file ");
                r.append(filename.as_str());
                r.append(": ");
                r.append(err.as_str());
                proof {
                    assert(r@ =~= command_error_msg(*self));
                }
                r
            },
            CommandError::Builtin(b) => b.display(),
        }
    }
}

impl ShellError {
    /// The single point where a command failure is annotated with the display
    /// name of the command that produced it; no other component attaches this
    /// annotation, so every failure carries exactly one name.
    pub fn attach(err: CommandError, cmdname: String) -> (r: ShellError)
        ensures
            r == (ShellError::Command { err, cmdname }),
    {
        ShellError::Command { err, cmdname }
    }

    /// Renders this error as the user sees it: `{command name}: {causes}`.
    pub fn display(&self) -> (s: String)
        ensures
            s@ == shell_error_msg(*self),
    {
        match self {
            ShellError::Command { err, cmdname } => {
                let mut r = cmdname.clone();
                r.append(": ");
                r.append(err.display().as_str());
                proof {
                    assert(r@ =~= shell_error_msg(*self));
                }
                r
            },
        }
    }
}

impl From<LockError> for BuiltinError {
    fn from(err: LockError) -> (r: BuiltinError) {
        BuiltinError::Lock(err)
    }
}

impl vstd::std_specs::convert::FromSpecImpl<LockError> for BuiltinError {
    open spec fn obeys_from_spec() -> bool {
        true
    }

    open spec fn from_spec(err: LockError) -> BuiltinError {
        BuiltinError::Lock(err)
    }
}


/// The OS error type of the `nix` crate.
#[verifier::external_type_specification]
#[verifier::external_body]
pub struct ExErrno(nix::errno::Errno);

/// The I/O error type of the standard library.
#[verifier::external_type_specification]
#[verifier::external_body]
pub struct ExIoError(std::io::Error);

impl BuiltinError {
    /// Relies on the `Display` of `std::io::Error`: wraps a generic I/O
    /// failure, keeping its report as text.
    #[verifier::external_body]
    pub fn from_io(err: &std::io::Error) -> (r: BuiltinError)
        ensures
            r is Io,
    {
        BuiltinError::Io(err.to_string())
    }

    /// Relies on the `Display` of `nix::errno::Errno`: wraps an OS-call
    /// failure, keeping its report as text.
    #[verifier::external_body]
    pub fn from_nix(err: nix::errno::Errno) -> (r: BuiltinError)
        ensures
            r is Nix,
    {
        BuiltinError::Nix(err.to_string())
    }
}

} // verus!
