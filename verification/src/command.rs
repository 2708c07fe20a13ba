//! The pipeline data model: commands, their redirection requests, pipe
//! endpoints, and per-stage exit statuses.

use vstd::prelude::*;

use crate::error::BuiltinError;
use crate::error::ShellError;
use crate::fdplan::FdAction;
use vstd::string::StrSliceExecFns;
use vstd::utf8::encode_utf8;
use crate::fdplan::FdTable;

verus! {

/// One environment variable for a child process.
#[derive(Debug, Clone, PartialEq, Eq)]
pub struct EnvEntry {
    pub name: String,
    pub value: String,
}

/// One command of a pipeline. Each command carries the ordered list of
/// redirection requests that the parser resolved for it.
#[derive(Debug, Clone, PartialEq, Eq)]
pub enum Command {
    /// An external program, spawned as its own process. `env` is the complete
    /// environment handed to the child; callers that want the invoking
    /// context's variables merge them in before building the command.
    External { program: String, args: Vec<String>, env: Vec<EnvEntry>, redirects: Vec<FdAction> },
    /// An in-process command, dispatched through a `BuiltinRegistry`.
    Builtin { name: String, args: Vec<String>, redirects: Vec<FdAction> },
}

impl Command {
    /// The display name used when a failure of this command is reported.
    pub open spec fn spec_name(&self) -> Seq<char> {
        match self {
            Command::External { program, .. } => program@,
            Command::Builtin { name, .. } => name@,
        }
    }

    /// The command's redirection requests.
    pub open spec fn spec_redirects(&self) -> Seq<FdAction> {
        match self {
            Command::External { redirects, .. } => redirects@,
            Command::Builtin { redirects, .. } => redirects@,
        }
    }

    /// Returns the display name used when a failure of this command is
    /// reported.
    pub fn display_name(&self) -> (r: String)
        ensures
            r@ == self.spec_name(),
    {
        match self {
            Command::External { program, .. } => program.clone(),
            Command::Builtin { name, .. } => name.clone(),
        }
    }
}

/// An ordered sequence of commands; stage `i`'s standard output feeds stage
/// `i + 1`'s standard input through one pipe endpoint.
#[derive(Debug, Clone, PartialEq, Eq)]
pub struct Pipeline {
    pub stages: Vec<Command>,
}

/// An owned pair of descriptors for one pipe between adjacent stages.
#[derive(Debug, Clone, Copy, PartialEq, Eq, Structural)]
pub struct PipeEndpoint {
    pub read_fd: i32,
    pub write_fd: i32,
}

/// How one stage ended.
#[derive(Debug, Clone, PartialEq, Eq)]
pub enum ExitStatus {
    /// The stage terminated normally with this exit code.
    Success(i32),
    /// The stage was terminated by this signal.
    Signaled(i32),
    /// The stage ran but failed inside this core (a builtin failure or a
    /// failure to retrieve the exit status), reported with its command name.
    Failed(ShellError),
}

/// How a waited-on child process terminated.
#[derive(Debug, Clone, Copy, PartialEq, Eq, Structural)]
pub enum WaitOutcome {
    /// Normal termination with this exit code.
    Exited(i32),
    /// Termination by this signal.
    Signaled(i32),
}

/// The contract every in-process command implementation satisfies: accept a
/// parsed argument vector plus the installed descriptor table, and produce
/// either an `ExitStatus` or a `BuiltinError`. Implementations are looked up
/// by name, so new builtins need no change to the dispatcher; `None` means no
/// builtin of that name is registered. A builtin does its I/O through the
/// bindings of the table it is handed; one that reaches around the table can
/// corrupt the calling process's descriptor state, which this core cannot
/// prevent.
pub trait BuiltinRegistry {
    fn run_builtin(&self, name: &String, args: &Vec<String>, fds: &FdTable) -> (r: Option<
        Result<ExitStatus, BuiltinError>,
    >);
}


/// The byte form of one string handed to the OS: its UTF-8 encoding.
pub(crate) fn string_bytes(s: &String) -> (r: Vec<u8>)
    ensures
        r@ == encode_utf8(s@),
{
    s.as_str().as_bytes_vec()
}

/// Scans `b` for a nul byte and, finding none, appends the terminator the OS
/// expects; a string with an interior nul cannot be passed to a child and is
/// rejected.
pub(crate) fn nul_terminate(b: Vec<u8>) -> (r: Result<Vec<u8>, String>)
    ensures
        r matches Ok(v) ==> v@ == b@.push(0) && !b@.contains(0),
        r is Err <==> b@.contains(0),
{
    let mut i: usize = 0;
    while i < b.len()
        invariant
            i <= b@.len(),
            forall|k: int| 0 <= k < i ==> b@[k] != 0,
        decreases b@.len() - i,
    {
        if b[i] == 0 {
            return Err(String::from_str("nul byte inside a command string"));
        }
        i = i + 1;
    }
    proof {
        assert(!b@.contains(0));
    }
    let mut v = b;
    v.push(0);
    Ok(v)
}

/// The argument vector for a child process: the program first, then each
/// argument, each nul-terminated. Fails exactly when one of the strings
/// carries an interior nul byte.
pub(crate) fn build_argv(program: &String, args: &Vec<String>) -> (r: Result<Vec<Vec<u8>>, String>)
    ensures
        r matches Ok(v) ==> {
            &&& v@.len() == 1 + args@.len()
            &&& v@[0]@ == encode_utf8(program@).push(0)
            &&& forall|j: int|
                0 <= j < args@.len() ==> (#[trigger] v@[j + 1])@ == encode_utf8(
                    args@[j]@,
                ).push(0)
        },
        r is Err <==> (encode_utf8(program@).contains(0) || exists|j: int|
            0 <= j < args@.len() && encode_utf8(#[trigger] args@[j]@).contains(0)),
{
    let mut v: Vec<Vec<u8>> = Vec::new();
    match nul_terminate(string_bytes(program)) {
        Ok(b) => v.push(b),
        Err(e) => {
            return Err(e);
        },
    }
    let mut i: usize = 0;
    while i < args.len()
        invariant
            i <= args@.len(),
            v@.len() == 1 + i,
            v@[0]@ == encode_utf8(program@).push(0),
            forall|j: int|
                0 <= j < i ==> (#[trigger] v@[j + 1])@ == encode_utf8(args@[j]@).push(0),
            forall|j: int| 0 <= j < i ==> !encode_utf8(#[trigger] args@[j]@).contains(0),
            !encode_utf8(program@).contains(0),
        decreases args@.len() - i,
    {
        match nul_terminate(string_bytes(&args[i])) {
            Ok(b) => v.push(b),
            Err(e) => {
                return Err(e);
            },
        }
        i = i + 1;
    }
    Ok(v)
}

/// The byte form of one environment entry as the OS expects it, terminator
/// not included: `NAME=value` in UTF-8.
pub open spec fn env_entry_bytes(e: EnvEntry) -> Seq<u8> {
    encode_utf8(e.name@) + seq![61u8] + encode_utf8(e.value@)
}

/// The environment block for a child process: one nul-terminated `NAME=value`
/// entry per variable. Fails exactly when an entry carries an interior nul
/// byte.
pub(crate) fn build_envp(env: &Vec<EnvEntry>) -> (r: Result<Vec<Vec<u8>>, String>)
    ensures
        r matches Ok(v) ==> {
            &&& v@.len() == env@.len()
            &&& forall|j: int|
                0 <= j < env@.len() ==> (#[trigger] v@[j])@ == env_entry_bytes(env@[j]).push(0)
        },
        r is Err <==> exists|j: int|
            0 <= j < env@.len() && env_entry_bytes(#[trigger] env@[j]).contains(0),
{
    let mut v: Vec<Vec<u8>> = Vec::new();
    let mut i: usize = 0;
    while i < env.len()
        invariant
            i <= env@.len(),
            v@.len() == i,
            forall|j: int|
                0 <= j < i ==> (#[trigger] v@[j])@ == env_entry_bytes(env@[j]).push(0),
            forall|j: int| 0 <= j < i ==> !env_entry_bytes(#[trigger] env@[j]).contains(0),
        decreases env@.len() - i,
    {
        let mut b = string_bytes(&env[i].name);
        b.push(61);
        let mut val = string_bytes(&env[i].value);
        b.append(&mut val);
        proof {
            assert(b@ =~= env_entry_bytes(env@[i as int]));
        }
        match nul_terminate(b) {
            Ok(e) => v.push(e),
            Err(e) => {
                return Err(e);
            },
        }
        i = i + 1;
    }
    Ok(v)
}

} // verus!
