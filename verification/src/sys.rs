//! The trusted boundary to the operating system. Every item here is believed,
//! not proved: each wrapper's body makes its OS call through the `nix` crate
//! and converts its arguments and result. Descriptor numbers, process ids and
//! termination statuses depend on the state of the machine, so the contracts
//! state only what holds of every outcome.

use vstd::prelude::*;

use crate::command::WaitOutcome;
use crate::fdplan::OpenMode;

verus! {

/// The set of descriptor operations a spawned child performs between the
/// fork-equivalent step and exec, declared to the OS up front.
#[verifier::external_type_specification]
#[verifier::external_body]
pub struct ExPosixSpawnFileActions(nix::spawn::PosixSpawnFileActions);

/// Relies on pipe(2) via `nix::unistd::pipe`: on success the two returned
/// descriptors are distinct open descriptors, and descriptors are never
/// negative. The pair is re-expressed as plain numbers with fcntl F_DUPFD so
/// that ownership passes to the caller's bookkeeping.
#[verifier::external_body]
pub(crate) fn sys_pipe() -> (r: Result<(i32, i32), String>)
    ensures
        r matches Ok(p) ==> p.0 >= 0 && p.1 >= 0 && p.0 != p.1,
{
    let (rd, wr) = nix::unistd::pipe().map_err(|e| e.to_string())?;
    let rraw = nix::fcntl::fcntl(&rd, nix::fcntl::FcntlArg::F_DUPFD(0)).map_err(|e| e.to_string())?;
    match nix::fcntl::fcntl(&wr, nix::fcntl::FcntlArg::F_DUPFD(0)) {
        Ok(f) => Ok((rraw, f)),
        Err(e) => { let _ = nix::unistd::close(rraw); Err(e.to_string()) },
    }
}

/// Relies on open(2) via `nix::fcntl::open`: on success the returned
/// descriptor is open and never negative. Read opens the file read-only;
/// Write truncates or creates it; Append creates it and appends; ReadWrite
/// opens or creates it for both. The descriptor is re-expressed as a plain
/// number with fcntl F_DUPFD so that ownership passes to the caller's
/// bookkeeping.
#[verifier::external_body]
pub(crate) fn sys_open_file(path: &String, mode: &OpenMode) -> (r: Result<i32, String>)
    ensures
        r matches Ok(fd) ==> fd >= 0,
{
    let (w, a) = (nix::fcntl::OFlag::O_WRONLY, nix::fcntl::OFlag::O_CREAT);
    let flags = match mode {
        OpenMode::Read => nix::fcntl::OFlag::O_RDONLY,
        OpenMode::Write => w | a | nix::fcntl::OFlag::O_TRUNC,
        OpenMode::Append => w | a | nix::fcntl::OFlag::O_APPEND,
        OpenMode::ReadWrite => nix::fcntl::OFlag::O_RDWR | a,
    };
    let perm = nix::sys::stat::Mode::from_bits_truncate(0o644);
    let f = nix::fcntl::open(path.as_str(), flags, perm).map_err(|e| e.to_string())?;
    nix::fcntl::fcntl(&f, nix::fcntl::FcntlArg::F_DUPFD(0)).map_err(|e| e.to_string())
}

/// Relies on close(2) via `nix::unistd::close`: after the call the descriptor
/// number is released whatever the result, so a close is never retried.
#[verifier::external_body]
pub(crate) fn sys_close(fd: i32) -> (r: Result<(), String>)
{
    match nix::unistd::close(fd) {
        Ok(()) => Ok(()),
        Err(e) => Err(e.to_string()),
    }
}

/// Relies on posix_spawn_file_actions_init(3) via
/// `nix::spawn::PosixSpawnFileActions::init`.
#[verifier::external_body]
pub(crate) fn fa_new() -> (r: Result<nix::spawn::PosixSpawnFileActions, String>)
{
    match nix::spawn::PosixSpawnFileActions::init() {
        Ok(fa) => Ok(fa),
        Err(e) => Err(e.to_string()),
    }
}

/// Relies on posix_spawn_file_actions_adddup2(3) via
/// `nix::spawn::PosixSpawnFileActions::add_dup2`: records that the child is to
/// duplicate `src` onto `dst` before exec.
#[verifier::external_body]
pub(crate) fn fa_add_dup2(fa: &mut nix::spawn::PosixSpawnFileActions, src: i32, dst: i32) -> (r:
    Result<(), String>)
{
    match fa.add_dup2(src, dst) {
        Ok(()) => Ok(()),
        Err(e) => Err(e.to_string()),
    }
}

/// Relies on posix_spawn_file_actions_addclose(3) via
/// `nix::spawn::PosixSpawnFileActions::add_close`: records that the child is
/// to close `fd` before exec.
#[verifier::external_body]
pub(crate) fn fa_add_close(fa: &mut nix::spawn::PosixSpawnFileActions, fd: i32) -> (r: Result<
    (),
    String,
>)
{
    match fa.add_close(fd) {
        Ok(()) => Ok(()),
        Err(e) => Err(e.to_string()),
    }
}

/// Relies on posix_spawnp(3) via `nix::spawn::posix_spawnp`: on success the
/// child process exists and its process id is positive; on failure the child
/// never began running. Each element of `argv` and `envp` is one
/// nul-terminated string; the child receives `argv[0]` as the program to
/// find, the whole of `argv` as its arguments and exactly `envp` as its
/// environment, and performs `fa`'s descriptor operations before exec. An
/// element with a misplaced nul byte is reported as an error.
#[verifier::external_body]
pub(crate) fn sys_spawn(
    argv: &Vec<Vec<u8>>,
    envp: &Vec<Vec<u8>>,
    fa: &nix::spawn::PosixSpawnFileActions,
) -> (r: Result<i32, String>)
    requires
        argv@.len() >= 1,
    ensures
        r matches Ok(pid) ==> pid > 0,
{
    let attr = nix::spawn::PosixSpawnAttr::init().map_err(|e| e.to_string())?;
    let mut args: Vec<&core::ffi::CStr> = Vec::new();
    for b in argv.iter() {
        args.push(core::ffi::CStr::from_bytes_with_nul(b).map_err(|e| e.to_string())?);
    }
    let mut envs: Vec<&core::ffi::CStr> = Vec::new();
    for b in envp.iter() {
        envs.push(core::ffi::CStr::from_bytes_with_nul(b).map_err(|e| e.to_string())?);
    }
    let pid = nix::spawn::posix_spawnp(args[0], fa, &attr, &args, &envs).map_err(|e| e.to_string())?;
    Ok(pid.as_raw())
}

/// Relies on waitpid(2) via `nix::sys::wait::waitpid`, called without options:
/// it blocks until the child terminates and reports either a normal exit or a
/// terminating signal; any other report is surfaced as an error. Whatever the
/// result, the caller's claim on the child is consumed.
#[verifier::external_body]
pub(crate) fn sys_wait(pid: i32) -> (r: Result<WaitOutcome, String>)
    requires
        pid > 0,
{
    match nix::sys::wait::waitpid(nix::unistd::Pid::from_raw(pid), None) {
        Ok(nix::sys::wait::WaitStatus::Exited(_, code)) => Ok(WaitOutcome::Exited(code)),
        Ok(nix::sys::wait::WaitStatus::Signaled(_, sig, _)) => Ok(WaitOutcome::Signaled(sig as i32)),
        Ok(_) => Err("unexpected wait status".to_string()),
        Err(e) => Err(e.to_string()),
    }
}

} // verus!
