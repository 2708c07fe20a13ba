//! The pipeline executor: drives an entire pipeline end to end. Stages are
//! launched strictly in pipeline order; one pipe endpoint is created lazily per
//! adjacent boundary immediately before it is needed, so the number of
//! simultaneously open descriptors stays bounded. External commands are
//! spawned with their descriptor steps performed in the child before exec;
//! builtins run in-process against a virtual descriptor table. After a stage
//! is launched the controlling process closes its own copies of that stage's
//! pipe descriptors at once; a failure of one of those closes is reported as
//! `PipeIo` under the stage's name (the descriptor is released either way, so
//! nothing is closed twice).
//!
//! Setup failure policy: if planning, pipe creation or the spawn itself fails
//! for a stage, that stage never runs, every already-launched stage is still
//! waited on, every descriptor this run still owns is closed, and the error —
//! annotated with the failing command's name — is the pipeline's reported
//! result; later stages are never attempted. A failure *inside* a stage that
//! did run (a builtin error, or a failed exit-status retrieval) becomes that
//! stage's `ExitStatus::Failed` and the pipeline continues, so the reported
//! result of a completed pipeline is always the last stage's status.

use vstd::multiset::group_multiset_axioms;
use vstd::multiset::Multiset;
use vstd::prelude::*;

use crate::command::build_argv;
use crate::command::build_envp;
use crate::command::BuiltinRegistry;
use crate::command::Command;
use crate::command::ExitStatus;
use crate::command::PipeEndpoint;
use crate::command::Pipeline;
use crate::command::WaitOutcome;
use crate::error::BuiltinError;
use crate::error::CommandError;
use crate::error::ShellError;
use crate::fdplan::apply_from;
use crate::fdplan::close_all_from;
use crate::fdplan::close_slot;
use crate::fdplan::dup_fail_msg;
use crate::fdplan::dup_slot;
use crate::fdplan::fd_in_range;
use crate::fdplan::init_table;
use crate::fdplan::open_free;
use crate::fdplan::prep_steps_from;
use crate::fdplan::resolve;
use crate::fdplan::vplan_det;
use crate::fdplan::PlanError;
use crate::fdplan::splan_first_err;
use crate::fdplan::steps_from;
use crate::fdplan::FdAction;
use crate::fdplan::FdTable;
use crate::fdplan::SpawnStep;
use crate::resources::Resources;
use crate::sys::fa_add_close;
use crate::sys::fa_add_dup2;
use crate::sys::fa_new;

verus! {

broadcast use vstd::multiset::group_multiset_axioms, vstd::seq_lib::group_to_multiset_ensures;

/// One launched stage: either already finished (a builtin ran in-process) or
/// running as a child process that still must be waited on.
pub(crate) enum StageHandle {
    /// The stage completed in-process with this status.
    Done(ExitStatus),
    /// The stage runs as child `pid`; `name` is kept for error reporting.
    Running { pid: i32, name: String },
}

/// The children a sequence of handles still holds claims on.
pub(crate) open spec fn pid_mset(h: StageHandle) -> Multiset<i32> {
    match h {
        StageHandle::Running { pid, .. } => Multiset::singleton(pid),
        StageHandle::Done(_) => Multiset::empty(),
    }
}

/// The multiset of child process ids a handle list holds claims on.
pub(crate) open spec fn pids_of(s: Seq<StageHandle>) -> Multiset<i32>
    decreases s.len(),
{
    if s.len() == 0 {
        Multiset::empty()
    } else {
        pid_mset(s.first()).add(pids_of(s.drop_first()))
    }
}

/// Every running handle's process id is positive.
pub(crate) open spec fn wf_handles(s: Seq<StageHandle>) -> bool {
    forall|j: int|
        0 <= j < s.len() ==> ((#[trigger] s[j]) matches StageHandle::Running { pid, .. } ==> pid
            > 0)
}

/// Appending a handle adds exactly its claim.
proof fn lemma_pids_of_push(s: Seq<StageHandle>, h: StageHandle)
    ensures
        pids_of(s.push(h)) == pid_mset(h).add(pids_of(s)),
    decreases s.len(),
{
    broadcast use group_multiset_axioms;

    if s.len() == 0 {
        assert(s.push(h).first() == h);
        assert(s.push(h).drop_first() =~= Seq::<StageHandle>::empty());
        assert(pids_of(s) == Multiset::<i32>::empty());
        assert(pids_of(s.push(h)) == pid_mset(h).add(pids_of(Seq::<StageHandle>::empty())));
        assert(pids_of(s.push(h)) =~= pid_mset(h).add(pids_of(s)));
    } else {
        lemma_pids_of_push(s.drop_first(), h);
        assert(s.push(h).drop_first() =~= s.drop_first().push(h));
        assert(s.push(h).first() == s.first());
        assert(pids_of(s.push(h)) =~= pid_mset(h).add(pids_of(s)));
    }
}

/// Which stage a launch handle may stand for: a running child only for an
/// external command, under that command's display name; a recorded status only
/// for a builtin.
pub(crate) open spec fn handle_for(h: StageHandle, c: Command) -> bool {
    match h {
        StageHandle::Running { name, .. } => (c matches Command::External { program, .. } && name@
            == program@),
        StageHandle::Done(_) => c matches Command::Builtin { .. },
    }
}

/// What a collected status may say of the handle it came from: a recorded
/// builtin status is passed through unchanged; a waited-on child yields its
/// exit code, its terminating signal, or — when retrieving the status itself
/// failed — a `Failed` status carrying `RealCommandStatus` under the command's
/// name.
pub(crate) open spec fn status_for(h: StageHandle, st: ExitStatus) -> bool {
    match h {
        StageHandle::Done(s) => st == s,
        StageHandle::Running { pid, name } => {
            ||| st matches ExitStatus::Success(_)
            ||| st matches ExitStatus::Signaled(_)
            ||| (st matches ExitStatus::Failed(e) && (e matches ShellError::Command {
                err,
                cmdname,
            } && err is RealCommandStatus && cmdname@ == name@))
        },
    }
}

/// What the reported status of an external stage named `name` may say: an exit
/// code, a terminating signal, or a failed status retrieval annotated with
/// that very name.
pub open spec fn external_status(st: ExitStatus, name: Seq<char>) -> bool {
    ||| st matches ExitStatus::Success(_)
    ||| st matches ExitStatus::Signaled(_)
    ||| (st matches ExitStatus::Failed(e) && (e matches ShellError::Command { err, cmdname } && err
        is RealCommandStatus && cmdname@ == name))
}

/// Translates one wait report into the stage's exit status: a normal exit or a
/// terminating signal as reported; a failed retrieval becomes a `Failed`
/// status carrying `RealCommandStatus` under the command's display name.
pub(crate) fn status_of_wait(w: Result<WaitOutcome, String>, name: String) -> (st: ExitStatus)
    ensures
        st == match w {
            Ok(WaitOutcome::Exited(code)) => ExitStatus::Success(code),
            Ok(WaitOutcome::Signaled(sig)) => ExitStatus::Signaled(sig),
            Err(m) => ExitStatus::Failed(
                ShellError::Command { err: CommandError::RealCommandStatus(m), cmdname: name },
            ),
        },
{
    match w {
        Ok(WaitOutcome::Exited(code)) => ExitStatus::Success(code),
        Ok(WaitOutcome::Signaled(sig)) => ExitStatus::Signaled(sig),
        Err(m) => ExitStatus::Failed(ShellError::attach(CommandError::RealCommandStatus(m), name)),
    }
}

/// The descriptor steps one external stage's child performs, in order: the
/// duplication of the upstream pipe onto standard input, the stage's own
/// redirections, the duplication of the downstream pipe onto standard output,
/// then the closes of the controlling process's raw pipe descriptors.
pub open spec fn stage_steps(
    prev: Option<i32>,
    next: Option<PipeEndpoint>,
    redirects: Seq<FdAction>,
    opened: Seq<i32>,
) -> Seq<SpawnStep> {
    (match prev {
        Some(fd) => seq![SpawnStep::Dup2 { src: fd, dst: 0 }],
        None => Seq::empty(),
    }) + steps_from(redirects, opened) + (match next {
        Some(ep) => seq![SpawnStep::Dup2 { src: ep.write_fd, dst: 1 }],
        None => Seq::empty(),
    }) + (match prev {
        Some(fd) => seq![SpawnStep::CloseFd { fd }],
        None => Seq::empty(),
    }) + (match next {
        Some(ep) => seq![
            SpawnStep::CloseFd { fd: ep.read_fd },
            SpawnStep::CloseFd { fd: ep.write_fd },
        ],
        None => Seq::empty(),
    })
}

/// A child's declared pre-exec descriptor operations, carrying the step list
/// they were registered from, so that what is handed to the spawn call stands
/// in a contract.
pub(crate) struct FileActions {
    fa: nix::spawn::PosixSpawnFileActions,
    steps: Ghost<Seq<SpawnStep>>,
}

impl FileActions {
    /// The steps this object was built from, in registration order.
    pub(crate) closed spec fn steps(&self) -> Seq<SpawnStep> {
        self.steps@
    }
}

/// Declares `steps` to the OS as the child's pre-exec descriptor operations,
/// in order. A refused duplication is reported as `DupFd` on its destination;
/// a refused close as `PipeIo`.
fn build_file_actions(steps: &Vec<SpawnStep>) -> (r: Result<FileActions, CommandError>)
    ensures
        r matches Ok(f) ==> f.steps() == steps@,
        r is Err ==> (r matches Err(CommandError::DupFd { .. }) || r matches Err(
            CommandError::PipeIo(_),
        )),
{
    let mut fa = match fa_new() {
        Ok(fa) => fa,
        Err(msg) => {
            return Err(CommandError::PipeIo(msg));
        },
    };
    let mut i: usize = 0;
    while i < steps.len()
        decreases steps@.len() - i,
    {
        match steps[i] {
            SpawnStep::Dup2 { src, dst } => {
                match fa_add_dup2(&mut fa, src, dst) {
                    Ok(()) => {
                    },
                    Err(msg) => {
                        return Err(CommandError::DupFd { err: msg, fd: dst });
                    },
                }
            },
            SpawnStep::CloseFd { fd } => {
                match fa_add_close(&mut fa, fd) {
                    Ok(()) => {
                    },
                    Err(msg) => {
                        return Err(CommandError::PipeIo(msg));
                    },
                }
            },
        }
        i = i + 1;
    }
    Ok(FileActions { fa, steps: Ghost(steps@) })
}

/// Waits on every still-running handle, in pipeline order, releasing every
/// claim; statuses are discarded. Used when a setup failure abandons the
/// pipeline so that no launched child is orphaned.
pub(crate) fn drain_children(
    handles: &mut Vec<StageHandle>,
    res: &mut Resources,
    Ghost(base): Ghost<Multiset<i32>>,
)
    requires
        wf_handles(old(handles)@),
        old(res).pids() == base.add(pids_of(old(handles)@)),
    ensures
        final(res).pids() == base,
        final(res).fds() == old(res).fds(),
    decreases old(handles)@.len(),
{
    proof {
        broadcast use group_multiset_axioms;

    }
    if handles.len() == 0 {
        proof {
            assert(old(res).pids() =~= base);
        }
        return ;
    }
    proof {
        assert(old(handles)@.first() == old(handles)@[0]);
        assert(old(handles)@.drop_first() =~= old(handles)@.remove(0));
    }
    let h = handles.remove(0);
    match h {
        StageHandle::Done(_) => {
            proof {
                assert(res.pids() =~= base.add(pids_of(handles@)));
            }
        },
        StageHandle::Running { pid, .. } => {
            proof {
                assert(old(res).pids().count(pid) > 0);
            }
            let _ = res.wait_child(pid);
            proof {
                assert(res.pids() =~= base.add(pids_of(handles@)));
            }
        },
    }
    drain_children(handles, res, Ghost(base));
}

/// Waits on every stage in pipeline order and collects one `ExitStatus` per
/// stage: a finished builtin's status exactly as recorded, and for each child
/// what `status_of_wait` makes of its wait report. Every claim on a child is
/// released exactly once.
pub(crate) fn collect_statuses(
    handles: &mut Vec<StageHandle>,
    out: &mut Vec<ExitStatus>,
    res: &mut Resources,
    Ghost(base): Ghost<Multiset<i32>>,
)
    requires
        wf_handles(old(handles)@),
        old(res).pids() == base.add(pids_of(old(handles)@)),
    ensures
        final(res).pids() == base,
        final(res).fds() == old(res).fds(),
        old(out)@.is_prefix_of(final(out)@),
        final(out)@.len() == old(out)@.len() + old(handles)@.len(),
        forall|k: int|
            0 <= k < old(handles)@.len() ==> status_for(
                #[trigger] old(handles)@[k],
                final(out)@[old(out)@.len() + k],
            ),
    decreases old(handles)@.len(),
{
    proof {
        broadcast use group_multiset_axioms;

    }
    if handles.len() == 0 {
        proof {
            assert(old(res).pids() =~= base);
            assert(out@ =~= out@.subrange(0, out@.len() as int));
        }
        return ;
    }
    proof {
        assert(old(handles)@.first() == old(handles)@[0]);
        assert(old(handles)@.drop_first() =~= old(handles)@.remove(0));
    }
    let h = handles.remove(0);
    match h {
        StageHandle::Done(st) => {
            proof {
                assert(status_for(old(handles)@[0], st));
            }
            out.push(st);
            proof {
                assert(res.pids() =~= base.add(pids_of(handles@)));
            }
        },
        StageHandle::Running { pid, name } => {
            proof {
                assert(old(res).pids().count(pid) > 0);
            }
            let w = res.wait_child(pid);
            let ghost name0 = name@;
            let st = status_of_wait(w, name);
            proof {
                assert(status_for(old(handles)@[0], st));
            }
            out.push(st);
            proof {
                assert(res.pids() =~= base.add(pids_of(handles@)));
            }
        },
    }
    let ghost mid_out = out@;
    collect_statuses(handles, out, res, Ghost(base));
    proof {
        assert(mid_out =~= out@.subrange(0, mid_out.len() as int));
        assert(old(out)@.is_prefix_of(out@));
        assert forall|k: int| 0 <= k < old(handles)@.len() implies status_for(
            #[trigger] old(handles)@[k],
            out@[old(out)@.len() + k],
        ) by {
            if k == 0 {
                assert(out@[old(out)@.len() as int] == mid_out[old(out)@.len() as int]);
            } else {
                assert(old(handles)@[k] == old(handles)@.remove(0)[k - 1]);
            }
        }
    }
}

/// The reported outcome of a pipeline whose setup succeeded: one status per
/// stage, and how many pipe endpoints were created along the way.
#[derive(Debug)]
pub struct PipelineOutcome {
    /// One exit status per stage, in pipeline order.
    pub statuses: Vec<ExitStatus>,
    /// How many inter-stage pipe endpoints were created: one per boundary.
    pub pipes_created: usize,
}

impl PipelineOutcome {
    /// The pipeline's result: the exit status of the last stage, independent
    /// of earlier stages' outcomes.
    pub fn result(&self) -> (r: &ExitStatus)
        requires
            self.statuses@.len() > 0,
        ensures
            r == self.statuses@.last(),
    {
        &self.statuses[self.statuses.len() - 1]
    }
}

/// The descriptors the ledger holds for an optional retained pipe end.
pub(crate) open spec fn opt_mset(o: Option<i32>) -> Multiset<i32> {
    match o {
        Some(fd) => Multiset::singleton(fd),
        None => Multiset::empty(),
    }
}


/// Runs a whole pipeline: launches every stage in order, wiring adjacent
/// stages with lazily created pipes, then waits on every stage and reports one
/// status per stage. The ledger is returned exactly as it was: every
/// descriptor this run opened is closed exactly once and every child it
/// spawned is waited on exactly once, on success and on every failure path
/// alike. On a setup failure the failing stage never runs, later stages are
/// never attempted, and the annotated error is the result; in particular a
/// redirection destination outside the representable range fails the first
/// stage with `InvalidFd` before any process is spawned. Every reported error
/// carries the display name of one of the pipeline's own commands, a spawn
/// failure only an external command's and a builtin failure only a builtin's;
/// on success there is one status per stage, and an external stage's status is
/// an exit code, a terminating signal, or a status-retrieval failure
/// annotated with that very stage's name.
pub fn run_pipeline<R: BuiltinRegistry>(reg: &R, p: &Pipeline, res: &mut Resources) -> (r: Result<
    PipelineOutcome,
    ShellError,
>)
    requires
        p.stages@.len() >= 1,
    ensures
        final(res).fds() == old(res).fds(),
        final(res).pids() == old(res).pids(),
        r matches Ok(o) ==> o.statuses@.len() == p.stages@.len() && o.pipes_created as int
            == p.stages@.len() - 1 && (forall|k: int|
            0 <= k < p.stages@.len() ==> ((#[trigger] p.stages@[k]) matches Command::External {
                program,
                ..
            } ==> external_status(o.statuses@[k], program@))),
        r matches Err(e) ==> (e matches ShellError::Command { err, cmdname } && exists|k: int|
            0 <= k < p.stages@.len() && cmdname@ == (#[trigger] p.stages@[k]).spec_name() && ((
            err matches CommandError::StartRealCommand(_))
                ==> p.stages@[k] matches Command::External { .. }) && ((
            err matches CommandError::Builtin(_)) ==> p.stages@[k] matches Command::Builtin {
                ..
            })),
        p.stages@[0] matches Command::External { program, redirects, .. } ==> (splan_first_err(
            redirects@,
        ) matches Some(d) ==> (r matches Err(ShellError::Command { err, cmdname }) && err
            == CommandError::InvalidFd(d) && cmdname@ == program@)),
        p.stages@[0] matches Command::Builtin { name, redirects, .. } ==> (open_free(redirects@)
            ==> {
            &&& (vplan_det(init_table(), redirects@) matches Err(PlanError::BadDst(d)) ==> (
            r matches Err(ShellError::Command { err, cmdname }) && err == CommandError::InvalidFd(d)
                && cmdname@ == name@))
            &&& (vplan_det(init_table(), redirects@) matches Err(PlanError::DupFromClosed(d)) ==> (
            r matches Err(ShellError::Command { err, cmdname }) && (
            err matches CommandError::DupFd { fd, err: cause } && fd == d && cause@
                == dup_fail_msg()) && cmdname@ == name@))
        }),
{
    proof {
        broadcast use group_multiset_axioms;

    }
    let ghost orig_fds = old(res).fds();
    let ghost orig_pids = old(res).pids();
    let n = p.stages.len();
    let mut handles: Vec<StageHandle> = Vec::new();
    let mut prev_read: Option<i32> = None;
    let mut pipes_created: usize = 0;
    let mut i: usize = 0;
    proof {
        assert(res.fds() =~= orig_fds.add(opt_mset(prev_read)));
        assert(res.pids() =~= orig_pids.add(pids_of(handles@)));
    }
    while i < n
        invariant
            orig_fds == old(res).fds(),
            orig_pids == old(res).pids(),
            n == p.stages@.len(),
            1 <= n,
            i <= n,
            handles@.len() == i,
            wf_handles(handles@),
            res.fds() == orig_fds.add(opt_mset(prev_read)),
            res.pids() == orig_pids.add(pids_of(handles@)),
            pipes_created as int == if i < n {
                i as int
            } else {
                n - 1
            },
            i == n ==> prev_read is None,
            i == 0 ==> prev_read is None,
            forall|k: int| 0 <= k < i ==> handle_for(#[trigger] handles@[k], p.stages@[k]),
            i > 0 ==> (p.stages@[0] matches Command::External { redirects, .. }
                ==> splan_first_err(redirects@) is None),
            i > 0 ==> (p.stages@[0] matches Command::Builtin { redirects, .. } ==> (open_free(
                redirects@,
            ) ==> vplan_det(init_table(), redirects@) is Ok)),
        decreases n - i,
    {
        proof {
            broadcast use group_multiset_axioms;

        }
        let ghost start_fds = res.fds();
        match &p.stages[i] {
            Command::External { program, args, env, redirects } => {
                proof {
                    assert(redirects@.skip(0) =~= redirects@);
                    assert((#[trigger] p.stages@[i as int]).spec_name() == program@);
                }
                let mut steps: Vec<SpawnStep> = Vec::new();
                if let Some(pr) = prev_read {
                    steps.push(SpawnStep::Dup2 { src: pr, dst: 0 });
                }
                let mut opened: Vec<i32> = Vec::new();
                match prep_steps_from(redirects, 0, &mut steps, res, &mut opened) {
                    Ok(()) => {
                        proof {
                            assert(opened@.skip(0) =~= opened@);
                            if splan_first_err(redirects@) is Some {
                                assert(false);
                            }
                        }
                    },
                    Err(e) => {
                        proof {
                            assert(opened@.skip(0) =~= opened@);
                            assert(res.fds() =~= start_fds.add(opened@.to_multiset()));
                        }
                        close_all_from(&opened, 0, res, Ghost(start_fds));
                        if let Some(pr) = prev_read {
                            proof {
                                assert(res.fds().count(pr) > 0);
                            }
                            let _ = res.close_owned(pr);
                        }
                        proof {
                            assert(res.fds() =~= orig_fds);
                        }
                        drain_children(&mut handles, res, Ghost(orig_pids));
                        return Err(ShellError::attach(e, program.clone()));
                    },
                }
                let next_pipe: Option<PipeEndpoint> = if i + 1 < n {
                    match res.open_pipe() {
                        Ok(ep) => Some(ep),
                        Err(msg) => {
                            proof {
                                assert(opened@.skip(0) =~= opened@);
                                assert(res.fds() =~= start_fds.add(opened@.to_multiset()));
                            }
                            close_all_from(&opened, 0, res, Ghost(start_fds));
                            if let Some(pr) = prev_read {
                                proof {
                                    assert(res.fds().count(pr) > 0);
                                }
                                let _ = res.close_owned(pr);
                            }
                            proof {
                                assert(res.fds() =~= orig_fds);
                            }
                            drain_children(&mut handles, res, Ghost(orig_pids));
                            return Err(
                                ShellError::attach(CommandError::Pipe(msg), program.clone()),
                            );
                        },
                    }
                } else {
                    None
                };
                let ghost with_pipes = if next_pipe is Some {
                    start_fds.insert(next_pipe->Some_0.read_fd).insert(next_pipe->Some_0.write_fd)
                } else {
                    start_fds
                };
                proof {
                    assert(res.fds() =~= with_pipes.add(opened@.to_multiset()));
                }
                if let Some(ep) = next_pipe {
                    steps.push(SpawnStep::Dup2 { src: ep.write_fd, dst: 1 });
                }
                if let Some(pr) = prev_read {
                    steps.push(SpawnStep::CloseFd { fd: pr });
                }
                if let Some(ep) = next_pipe {
                    steps.push(SpawnStep::CloseFd { fd: ep.read_fd });
                    steps.push(SpawnStep::CloseFd { fd: ep.write_fd });
                }
                proof {
                    assert(steps@ =~= stage_steps(prev_read, next_pipe, redirects@, opened@));
                }
                let outcome = match build_file_actions(&steps) {
                    Ok(fa) => {
                        proof {
                            assert(fa.steps() == stage_steps(
                                prev_read,
                                next_pipe,
                                redirects@,
                                opened@,
                            ));
                        }
                        match build_argv(program, args) {
                            Ok(argv) => {
                                match build_envp(env) {
                                    Ok(envp) => {
                                        match res.spawn_child(&argv, &envp, &fa.fa) {
                                            Ok(pid) => Ok(pid),
                                            Err(m) => Err(CommandError::StartRealCommand(m)),
                                        }
                                    },
                                    Err(m) => Err(CommandError::StartRealCommand(m)),
                                }
                            },
                            Err(m) => Err(CommandError::StartRealCommand(m)),
                        }
                    },
                    Err(e) => Err(e),
                };
                match outcome {
                    Ok(pid) => {
                        let ghost hs = handles@;
                        handles.push(StageHandle::Running { pid, name: program.clone() });
                        proof {
                            assert(handles@ =~= hs.push(handles@.last()));
                            lemma_pids_of_push(hs, handles@.last());
                        }
                    },
                    Err(e) => {
                        close_all_from(&opened, 0, res, Ghost(with_pipes));
                        if let Some(ep) = next_pipe {
                            proof {
                                assert(res.fds().count(ep.read_fd) > 0);
                            }
                            let _ = res.close_owned(ep.read_fd);
                            proof {
                                assert(res.fds().count(ep.write_fd) > 0);
                            }
                            let _ = res.close_owned(ep.write_fd);
                        }
                        if let Some(pr) = prev_read {
                            proof {
                                assert(res.fds().count(pr) > 0);
                            }
                            let _ = res.close_owned(pr);
                        }
                        proof {
                            assert(res.fds() =~= orig_fds);
                        }
                        drain_children(&mut handles, res, Ghost(orig_pids));
                        return Err(ShellError::attach(e, program.clone()));
                    },
                }
                close_all_from(&opened, 0, res, Ghost(with_pipes));
                let mut close_report: Option<String> = None;
                if let Some(pr) = prev_read {
                    proof {
                        assert(res.fds().count(pr) > 0);
                    }
                    if let Err(m) = res.close_owned(pr) {
                        close_report = Some(m);
                    }
                }
                if let Some(ep) = next_pipe {
                    proof {
                        assert(res.fds().count(ep.write_fd) > 0);
                    }
                    if let Err(m) = res.close_owned(ep.write_fd) {
                        if close_report.is_none() {
                            close_report = Some(m);
                        }
                    }
                    prev_read = Some(ep.read_fd);
                    pipes_created = pipes_created + 1;
                } else {
                    prev_read = None;
                }
                proof {
                    assert(res.fds() =~= orig_fds.add(opt_mset(prev_read)));
                    assert(res.pids() =~= orig_pids.add(pids_of(handles@)));
                }
                if let Some(m) = close_report {
                    if let Some(pr2) = prev_read {
                        proof {
                            assert(res.fds().count(pr2) > 0);
                        }
                        let _ = res.close_owned(pr2);
                    }
                    proof {
                        assert(res.fds() =~= orig_fds);
                    }
                    drain_children(&mut handles, res, Ghost(orig_pids));
                    return Err(ShellError::attach(CommandError::PipeIo(m), program.clone()));
                }
            },
            Command::Builtin { name, args, redirects } => {
                proof {
                    assert(redirects@.skip(0) =~= redirects@);
                    assert((#[trigger] p.stages@[i as int]).spec_name() == name@);
                }
                let mut table = FdTable::new();
                if let Some(pr) = prev_read {
                    let dres = dup_slot(&mut table, pr, 0);
                    proof {
                        assert(fd_in_range(0));
                        assert(!(resolve(init_table(), pr as int) is Closed));
                        assert(dres is Ok);
                    }
                }
                proof {
                    if i == 0 {
                        assert(table@ == init_table());
                    }
                }
                let ghost plan_table = table@;
                let mut opened: Vec<i32> = Vec::new();
                let apply_r = apply_from(redirects, 0, &mut table, res, &mut opened);
                proof {
                    assert(opened@.skip(0) =~= opened@);
                    if i == 0 && open_free(redirects@) {
                        assert(apply_r is Ok <==> vplan_det(init_table(), redirects@) is Ok);
                    }
                }
                match apply_r {
                    Ok(()) => {
                    },
                    Err(e) => {
                        proof {
                            assert(res.fds() =~= start_fds.add(opened@.to_multiset()));
                        }
                        close_all_from(&opened, 0, res, Ghost(start_fds));
                        if let Some(pr) = prev_read {
                            proof {
                                assert(res.fds().count(pr) > 0);
                            }
                            let _ = res.close_owned(pr);
                        }
                        proof {
                            assert(res.fds() =~= orig_fds);
                        }
                        drain_children(&mut handles, res, Ghost(orig_pids));
                        return Err(ShellError::attach(e, name.clone()));
                    },
                }
                let next_pipe: Option<PipeEndpoint> = if i + 1 < n {
                    match res.open_pipe() {
                        Ok(ep) => Some(ep),
                        Err(msg) => {
                            proof {
                                assert(opened@.skip(0) =~= opened@);
                                assert(res.fds() =~= start_fds.add(opened@.to_multiset()));
                            }
                            close_all_from(&opened, 0, res, Ghost(start_fds));
                            if let Some(pr) = prev_read {
                                proof {
                                    assert(res.fds().count(pr) > 0);
                                }
                                let _ = res.close_owned(pr);
                            }
                            proof {
                                assert(res.fds() =~= orig_fds);
                            }
                            drain_children(&mut handles, res, Ghost(orig_pids));
                            return Err(ShellError::attach(CommandError::Pipe(msg), name.clone()));
                        },
                    }
                } else {
                    None
                };
                let ghost with_pipes = if next_pipe is Some {
                    start_fds.insert(next_pipe->Some_0.read_fd).insert(next_pipe->Some_0.write_fd)
                } else {
                    start_fds
                };
                proof {
                    assert(res.fds() =~= with_pipes.add(opened@.to_multiset()));
                }
                let mut stdout_err: Option<CommandError> = None;
                if let Some(ep) = next_pipe {
                    match dup_slot(&mut table, ep.write_fd, 1) {
                        Ok(()) => {
                        },
                        Err(e) => {
                            stdout_err = Some(e);
                        },
                    }
                }
                if let Some(e) = stdout_err {
                    close_all_from(&opened, 0, res, Ghost(with_pipes));
                    if let Some(ep) = next_pipe {
                        proof {
                            assert(res.fds().count(ep.read_fd) > 0);
                        }
                        let _ = res.close_owned(ep.read_fd);
                        proof {
                            assert(res.fds().count(ep.write_fd) > 0);
                        }
                        let _ = res.close_owned(ep.write_fd);
                    }
                    if let Some(pr) = prev_read {
                        proof {
                            assert(res.fds().count(pr) > 0);
                        }
                        let _ = res.close_owned(pr);
                    }
                    proof {
                        assert(res.fds() =~= orig_fds);
                    }
                    drain_children(&mut handles, res, Ghost(orig_pids));
                    return Err(ShellError::attach(e, name.clone()));
                }
                if let Some(pr) = prev_read {
                    close_slot(&mut table, pr);
                }
                if let Some(ep) = next_pipe {
                    close_slot(&mut table, ep.read_fd);
                    close_slot(&mut table, ep.write_fd);
                }
                let st: ExitStatus = match reg.run_builtin(name, args, &table) {
                    Some(Ok(st)) => st,
                    Some(Err(be)) => ExitStatus::Failed(
                        ShellError::attach(CommandError::Builtin(be), name.clone()),
                    ),
                    None => {
                        close_all_from(&opened, 0, res, Ghost(with_pipes));
                        if let Some(ep) = next_pipe {
                            proof {
                                assert(res.fds().count(ep.read_fd) > 0);
                            }
                            let _ = res.close_owned(ep.read_fd);
                            proof {
                                assert(res.fds().count(ep.write_fd) > 0);
                            }
                            let _ = res.close_owned(ep.write_fd);
                        }
                        if let Some(pr) = prev_read {
                            proof {
                                assert(res.fds().count(pr) > 0);
                            }
                            let _ = res.close_owned(pr);
                        }
                        proof {
                            assert(res.fds() =~= orig_fds);
                        }
                        drain_children(&mut handles, res, Ghost(orig_pids));
                        return Err(
                            ShellError::attach(
                                CommandError::Builtin(
                                    BuiltinError::Other(String::from_str("unknown builtin")),
                                ),
                                name.clone(),
                            ),
                        );
                    },
                };
                let ghost hs = handles@;
                handles.push(StageHandle::Done(st));
                proof {
                    assert(handles@ =~= hs.push(handles@.last()));
                    lemma_pids_of_push(hs, handles@.last());
                }
                close_all_from(&opened, 0, res, Ghost(with_pipes));
                let mut close_report: Option<String> = None;
                if let Some(pr) = prev_read {
                    proof {
                        assert(res.fds().count(pr) > 0);
                    }
                    if let Err(m) = res.close_owned(pr) {
                        close_report = Some(m);
                    }
                }
                if let Some(ep) = next_pipe {
                    proof {
                        assert(res.fds().count(ep.write_fd) > 0);
                    }
                    if let Err(m) = res.close_owned(ep.write_fd) {
                        if close_report.is_none() {
                            close_report = Some(m);
                        }
                    }
                    prev_read = Some(ep.read_fd);
                    pipes_created = pipes_created + 1;
                } else {
                    prev_read = None;
                }
                proof {
                    assert(res.fds() =~= orig_fds.add(opt_mset(prev_read)));
                    assert(res.pids() =~= orig_pids.add(pids_of(handles@)));
                }
                if let Some(m) = close_report {
                    if let Some(pr2) = prev_read {
                        proof {
                            assert(res.fds().count(pr2) > 0);
                        }
                        let _ = res.close_owned(pr2);
                    }
                    proof {
                        assert(res.fds() =~= orig_fds);
                    }
                    drain_children(&mut handles, res, Ghost(orig_pids));
                    return Err(ShellError::attach(CommandError::PipeIo(m), name.clone()));
                }
            },
        }
        i = i + 1;
    }
    let mut statuses: Vec<ExitStatus> = Vec::new();
    let ghost launched = handles@;
    collect_statuses(&mut handles, &mut statuses, res, Ghost(orig_pids));
    proof {
        assert(res.fds() =~= orig_fds);
        assert forall|k: int| 0 <= k < p.stages@.len() implies ((#[trigger] p.stages@[k]) matches
        Command::External { program, .. } ==> external_status(statuses@[k], program@)) by {
            assert(handle_for(launched[k], p.stages@[k]));
            assert(status_for(launched[k], statuses@[k]));
        }
    }
    Ok(PipelineOutcome { statuses, pipes_created })
}

} // verus!
