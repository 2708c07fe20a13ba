//! The descriptor planner: computes and applies the descriptor table one stage
//! needs before it runs, combining pipeline-assigned pipe descriptors with the
//! stage's own redirection requests.
//!
//! The planner works in two modes. For an in-process builtin it folds the
//! actions into a virtual `FdTable` of bindings that the builtin does its I/O
//! through; a file named by a redirection is opened in the controlling process
//! and its descriptor is bound in the table. For an external command it emits
//! the `SpawnStep` list the child performs between the fork-equivalent step
//! and exec; files are likewise opened in the controlling process first, so
//! that a failure to open is caught before any process is spawned.
//!
//! Scoped acquisition: on any failure, every descriptor a planning call has
//! already opened is closed before the error propagates, so partial
//! application never leaks.

use vstd::multiset::group_multiset_axioms;
use vstd::multiset::Multiset;
use vstd::prelude::*;
use vstd::seq_lib::group_to_multiset_ensures;
use vstd::seq_lib::lemma_multiset_commutative;

use crate::error::CommandError;
use crate::resources::Resources;

verus! {

/// How a redirection destination file is opened.
#[derive(Debug, Clone, Copy, PartialEq, Eq, Structural)]
pub enum OpenMode {
    /// Read-only.
    Read,
    /// Write-only, created if absent, truncated otherwise.
    Write,
    /// Write-only, created if absent, appending.
    Append,
    /// Read and write, created if absent.
    ReadWrite,
}

/// One operation on the descriptor table a stage will observe, applied in
/// request order; later actions may reference descriptors established by
/// earlier ones.
#[derive(Debug, Clone, PartialEq, Eq)]
pub enum FdAction {
    /// `dst` becomes an alias of whatever `src` currently references,
    /// replacing whatever `dst` previously referenced.
    DuplicateFd { src: i32, dst: i32 },
    /// Opens `path` with `mode` and installs it at `dst`.
    OpenFileAsFd { path: String, mode: OpenMode, dst: i32 },
    /// Removes `fd` from the stage's view of the table.
    ClosePipeEnd { fd: i32 },
}

/// The representable destination range: no stage observes a descriptor number
/// outside it.
pub open spec fn fd_in_range(fd: int) -> bool {
    0 <= fd < 256
}

/// Whether an action's destination is representable; close requests carry no
/// destination and are always valid.
pub open spec fn action_valid(a: FdAction) -> bool {
    match a {
        FdAction::DuplicateFd { dst, .. } => fd_in_range(dst as int),
        FdAction::OpenFileAsFd { dst, .. } => fd_in_range(dst as int),
        FdAction::ClosePipeEnd { .. } => true,
    }
}

/// Whether every action's destination is representable.
pub open spec fn all_valid(s: Seq<FdAction>) -> bool {
    forall|j: int| 0 <= j < s.len() ==> action_valid(s[j])
}

/// Whether the list contains no file-opening action (the only kind whose
/// outcome the operating system decides).
pub open spec fn open_free(s: Seq<FdAction>) -> bool {
    forall|j: int| 0 <= j < s.len() ==> !((#[trigger] s[j]) matches FdAction::OpenFileAsFd { .. })
}

/// What one slot of a stage's descriptor table references.
#[derive(Debug, Clone, Copy, PartialEq, Eq, Structural)]
pub enum FdBinding {
    /// The slot is whatever the invoking context has there.
    Inherit,
    /// The slot references the same open description as this live descriptor
    /// of the controlling process.
    Bound(i32),
    /// The slot is closed for the stage.
    Closed,
}

/// What a duplication from `src` binds: an explicit binding if the table has
/// one, otherwise the inherited descriptor `src` itself.
pub open spec fn resolve(t: Seq<FdBinding>, src: int) -> FdBinding {
    if !fd_in_range(src) {
        FdBinding::Bound(src as i32)
    } else if t[src] is Inherit {
        FdBinding::Bound(src as i32)
    } else {
        t[src]
    }
}

/// The table every stage starts from: all slots inherited.
pub open spec fn init_table() -> Seq<FdBinding> {
    Seq::new(256, |i: int| FdBinding::Inherit)
}

/// The virtual descriptor table of one stage: one binding per representable
/// descriptor number.
pub struct FdTable {
    slots: Vec<FdBinding>,
}

impl View for FdTable {
    type V = Seq<FdBinding>;

    closed spec fn view(&self) -> Seq<FdBinding> {
        self.slots@
    }
}

impl FdTable {
    /// The table covers exactly the representable descriptor numbers.
    pub open spec fn wf(&self) -> bool {
        self@.len() == 256
    }

    /// A fresh table with every slot inherited.
    pub fn new() -> (t: FdTable)
        ensures
            t.wf(),
            t@ == init_table(),
    {
        let slots: Vec<FdBinding> = vec![FdBinding::Inherit; 256];
        let t = FdTable { slots };
        proof {
            assert(t@ =~= init_table());
        }
        t
    }

    /// What the stage finds at `fd`: the explicit binding if there is one,
    /// otherwise the inherited descriptor `fd` itself.
    pub fn binding(&self, fd: i32) -> (b: FdBinding)
        requires
            self.wf(),
        ensures
            b == resolve(self@, fd as int),
    {
        if fd < 0 || fd > 255 {
            FdBinding::Bound(fd)
        } else {
            match self.slots[fd as usize] {
                FdBinding::Inherit => FdBinding::Bound(fd),
                b => b,
            }
        }
    }

    /// Sets the slot `dst` to `b`.
    fn set_slot(&mut self, dst: i32, b: FdBinding)
        requires
            old(self).wf(),
            fd_in_range(dst as int),
        ensures
            final(self).wf(),
            final(self)@ == old(self)@.update(dst as int, b),
    {
        self.slots[dst as usize] = b;
    }
}

/// The cause text the planner reports when a duplication source is closed in
/// the stage's table.
pub open spec fn dup_fail_msg() -> Seq<char> {
    "bad file descriptor"@
}

/// Applies one duplication request to the table: `dst` becomes an alias of
/// what `src` currently references. Fails with `InvalidFd` when `dst` is not
/// representable — checked before anything else — and with `DupFd` when the
/// source is closed in the table.
pub fn dup_slot(t: &mut FdTable, src: i32, dst: i32) -> (r: Result<(), CommandError>)
    requires
        old(t).wf(),
    ensures
        final(t).wf(),
        r is Ok <==> (fd_in_range(dst as int) && !(resolve(old(t)@, src as int) is Closed)),
        r is Ok ==> final(t)@ == old(t)@.update(dst as int, resolve(old(t)@, src as int)),
        r is Err ==> final(t)@ == old(t)@,
        r matches Err(CommandError::InvalidFd(d)) ==> d == dst && !fd_in_range(dst as int),
        r matches Err(CommandError::DupFd { fd, err }) ==> fd == dst && fd_in_range(dst as int)
            && resolve(old(t)@, src as int) is Closed && err@ == dup_fail_msg(),
        r is Err ==> (r matches Err(CommandError::InvalidFd(_)) || r matches Err(
            CommandError::DupFd { .. },
        )),
{
    if dst < 0 || dst > 255 {
        return Err(CommandError::InvalidFd(dst));
    }
    let b = t.binding(src);
    match b {
        FdBinding::Closed => Err(
            CommandError::DupFd { err: String::from_str("bad file descriptor"), fd: dst },
        ),
        _ => {
            t.set_slot(dst, b);
            Ok(())
        },
    }
}

/// Applies one close request to the table; a request outside the
/// representable range has no slot and is ignored.
pub fn close_slot(t: &mut FdTable, fd: i32)
    requires
        old(t).wf(),
    ensures
        final(t).wf(),
        final(t)@ == if fd_in_range(fd as int) {
            old(t)@.update(fd as int, FdBinding::Closed)
        } else {
            old(t)@
        },
{
    if 0 <= fd && fd <= 255 {
        t.set_slot(fd, FdBinding::Closed);
    }
}

/// The table that results from folding `s` over `t`, where `opened` lists, in
/// request order, the descriptors the file-opening actions received.
pub open spec fn vtable_from(t: Seq<FdBinding>, s: Seq<FdAction>, opened: Seq<i32>) -> Seq<
    FdBinding,
>
    decreases s.len(),
{
    if s.len() == 0 {
        t
    } else {
        let rest = s.drop_first();
        match s.first() {
            FdAction::DuplicateFd { src, dst } => vtable_from(
                if fd_in_range(dst as int) {
                    t.update(dst as int, resolve(t, src as int))
                } else {
                    t
                },
                rest,
                opened,
            ),
            FdAction::OpenFileAsFd { dst, .. } => vtable_from(
                if fd_in_range(dst as int) && opened.len() > 0 {
                    t.update(dst as int, FdBinding::Bound(opened.first()))
                } else {
                    t
                },
                rest,
                if opened.len() > 0 {
                    opened.drop_first()
                } else {
                    opened
                },
            ),
            FdAction::ClosePipeEnd { fd } => vtable_from(
                if fd_in_range(fd as int) {
                    t.update(fd as int, FdBinding::Closed)
                } else {
                    t
                },
                rest,
                opened,
            ),
        }
    }
}

/// The planner's failure on a list without file-opening actions.
#[derive(PartialEq, Eq, Structural)]
pub enum PlanError {
    /// The first failing action requests this unrepresentable destination.
    BadDst(i32),
    /// The first failing action duplicates from a closed slot onto this
    /// destination.
    DupFromClosed(i32),
}

/// The exact outcome of planning a list without file-opening actions: such a
/// list involves no call whose outcome the operating system decides, so
/// success and failure are fully determined.
pub open spec fn vplan_det(t: Seq<FdBinding>, s: Seq<FdAction>) -> Result<(), PlanError>
    decreases s.len(),
{
    if s.len() == 0 {
        Ok(())
    } else {
        let rest = s.drop_first();
        match s.first() {
            FdAction::DuplicateFd { src, dst } => if !fd_in_range(dst as int) {
                Err(PlanError::BadDst(dst))
            } else if resolve(t, src as int) is Closed {
                Err(PlanError::DupFromClosed(dst))
            } else {
                vplan_det(t.update(dst as int, resolve(t, src as int)), rest)
            },
            FdAction::OpenFileAsFd { dst, .. } => if !fd_in_range(dst as int) {
                Err(PlanError::BadDst(dst))
            } else {
                Ok(())
            },
            FdAction::ClosePipeEnd { fd } => vplan_det(
                if fd_in_range(fd as int) {
                    t.update(fd as int, FdBinding::Closed)
                } else {
                    t
                },
                rest,
            ),
        }
    }
}

/// Folds `actions[i..]` into the table for an in-process stage, opening
/// redirection files in the controlling process and recording every opened
/// descriptor in `opened` (they are not closed here: the caller releases them
/// after the stage completes, or on failure).
pub(crate) fn apply_from(
    actions: &Vec<FdAction>,
    i: usize,
    t: &mut FdTable,
    res: &mut Resources,
    opened: &mut Vec<i32>,
) -> (r: Result<(), CommandError>)
    requires
        i <= actions@.len(),
        old(t).wf(),
    ensures
        final(t).wf(),
        final(res).pids() == old(res).pids(),
        old(opened)@.is_prefix_of(final(opened)@),
        final(res).fds() == old(res).fds().add(
            final(opened)@.skip(old(opened)@.len() as int).to_multiset(),
        ),
        r is Ok ==> final(t)@ == vtable_from(
            old(t)@,
            actions@.skip(i as int),
            final(opened)@.skip(old(opened)@.len() as int),
        ) && all_valid(actions@.skip(i as int)),
        r matches Err(CommandError::InvalidFd(d)) ==> !fd_in_range(d as int),
        r matches Err(CommandError::FdAsFile { fd, filename, .. }) ==> exists|j: int|
            i <= j < actions@.len() && ((#[trigger] actions@[j]) matches FdAction::OpenFileAsFd {
                path,
                dst,
                ..
            } && dst == fd && path@ == filename@),
        r is Err ==> (r matches Err(CommandError::InvalidFd(_)) || r matches Err(
            CommandError::DupFd { .. },
        ) || r matches Err(CommandError::FdAsFile { .. })),
        open_free(actions@.skip(i as int)) ==> {
            &&& (r is Ok <==> vplan_det(old(t)@, actions@.skip(i as int)) is Ok)
            &&& (vplan_det(old(t)@, actions@.skip(i as int)) matches Err(PlanError::BadDst(d))
                ==> r == Err::<(), CommandError>(CommandError::InvalidFd(d)))
            &&& (vplan_det(old(t)@, actions@.skip(i as int)) matches Err(
                PlanError::DupFromClosed(d),
            ) ==> r matches Err(CommandError::DupFd { fd, err }) && fd == d && err@
                == dup_fail_msg())
        },
    decreases actions@.len() - i,
{
    proof {
        broadcast use group_multiset_axioms, group_to_multiset_ensures;

    }
    if i == actions.len() {
        proof {
            assert(opened@.skip(old(opened)@.len() as int) =~= Seq::<i32>::empty());
            assert(Seq::<i32>::empty().to_multiset() =~= Multiset::<i32>::empty());
            assert(res.fds() =~= old(res).fds().add(Multiset::<i32>::empty()));
        }
        return Ok(());
    }
    let ghost pre = actions@.skip(i as int);
    proof {
        assert(pre.first() == actions@[i as int]);
        assert(pre.drop_first() =~= actions@.skip(i as int + 1));
    }
    match &actions[i] {
        FdAction::DuplicateFd { src, dst } => {
            let ghost t0 = t@;
            match dup_slot(t, *src, *dst) {
                Ok(()) => {
                    let r = apply_from(actions, i + 1, t, res, opened);
                    proof {
                        if r is Ok {
                            assert(t@ == vtable_from(
                                t0,
                                pre,
                                opened@.skip(old(opened)@.len() as int),
                            ));
                            assert forall|j: int| 0 <= j < pre.len() implies action_valid(
                                #[trigger] pre[j],
                            ) by {
                                if j > 0 {
                                    assert(pre[j] == actions@.skip(i as int + 1)[j - 1]);
                                }
                            }
                            assert(all_valid(pre));
                        }
                    }
                    r
                },
                Err(e) => {
                    proof {
                        assert(opened@.skip(old(opened)@.len() as int)
                            =~= Seq::<i32>::empty());
                        assert(Seq::<i32>::empty().to_multiset() =~= Multiset::<i32>::empty());
                        assert(res.fds() =~= old(res).fds().add(Multiset::<i32>::empty()));
                    }
                    Err(e)
                },
            }
        },
        FdAction::OpenFileAsFd { path, mode, dst } => {
            if *dst < 0 || *dst > 255 {
                proof {
                    assert(opened@.skip(old(opened)@.len() as int) =~= Seq::<i32>::empty());
                    assert(Seq::<i32>::empty().to_multiset() =~= Multiset::<i32>::empty());
                    assert(res.fds() =~= old(res).fds().add(Multiset::<i32>::empty()));
                }
                return Err(CommandError::InvalidFd(*dst));
            }
            match res.open_file(path, mode) {
                Ok(fd) => {
                    opened.push(fd);
                    t.set_slot(*dst, FdBinding::Bound(fd));
                    let ghost t1 = t@;
                    let ghost mid = opened@;
                    let r = apply_from(actions, i + 1, t, res, opened);
                    proof {
                        let delta_all = opened@.skip(old(opened)@.len() as int);
                        let delta_rec = opened@.skip(mid.len() as int);
                        assert(mid == old(opened)@.push(fd));
                        assert(mid.len() == old(opened)@.len() + 1);
                        assert(mid[old(opened)@.len() as int] == fd);
                        assert(mid =~= opened@.subrange(0, mid.len() as int));
                        assert(opened@[old(opened)@.len() as int] == fd);
                        assert(delta_all =~= seq![fd] + delta_rec);
                        assert(delta_all.len() > 0 && delta_all.first() == fd);
                        assert(delta_all.drop_first() =~= delta_rec);
                        lemma_multiset_commutative(seq![fd], delta_rec);
                        assert(seq![fd] =~= Seq::<i32>::empty().push(fd));
                        assert(seq![fd].to_multiset() =~= Multiset::<i32>::empty().insert(fd));
                        assert(res.fds() =~= old(res).fds().add(delta_all.to_multiset()));
                        if r is Ok {
                            assert(t@ == vtable_from(t1, actions@.skip(i as int + 1), delta_rec));
                            assert(vtable_from(old(t)@, pre, delta_all) == vtable_from(
                                old(t)@.update(*dst as int, FdBinding::Bound(delta_all.first())),
                                pre.drop_first(),
                                delta_all.drop_first(),
                            ));
                            assert(t@ == vtable_from(old(t)@, pre, delta_all));
                            assert forall|j: int| 0 <= j < pre.len() implies action_valid(
                                #[trigger] pre[j],
                            ) by {
                                if j > 0 {
                                    assert(pre[j] == actions@.skip(i as int + 1)[j - 1]);
                                }
                            }
                            assert(all_valid(pre));
                        }
                    }
                    r
                },
                Err(msg) => {
                    proof {
                        assert(opened@.skip(old(opened)@.len() as int)
                            =~= Seq::<i32>::empty());
                        assert(Seq::<i32>::empty().to_multiset() =~= Multiset::<i32>::empty());
                        assert(res.fds() =~= old(res).fds().add(Multiset::<i32>::empty()));
                    }
                    Err(CommandError::FdAsFile { err: msg, fd: *dst, filename: path.clone() })
                },
            }
        },
        FdAction::ClosePipeEnd { fd } => {
            close_slot(t, *fd);
            let ghost t0 = old(t)@;
            let r = apply_from(actions, i + 1, t, res, opened);
            proof {
                if r is Ok {
                    assert(t@ == vtable_from(t0, pre, opened@.skip(old(opened)@.len() as int)));
                    assert forall|j: int| 0 <= j < pre.len() implies action_valid(
                        #[trigger] pre[j],
                    ) by {
                        if j > 0 {
                            assert(pre[j] == actions@.skip(i as int + 1)[j - 1]);
                        }
                    }
                    assert(all_valid(pre));
                }
            }
            r
        },
    }
}

/// Closes and releases `fds[j..]`, each exactly once, in order. `base` is the
/// ledger's view without these descriptors; the call returns the ledger to it.
pub(crate) fn close_all_from(
    fds: &Vec<i32>,
    j: usize,
    res: &mut Resources,
    Ghost(base): Ghost<Multiset<i32>>,
)
    requires
        j <= fds@.len(),
        old(res).fds() == base.add(fds@.skip(j as int).to_multiset()),
    ensures
        final(res).fds() == base,
        final(res).pids() == old(res).pids(),
    decreases fds@.len() - j,
{
    proof {
        broadcast use group_multiset_axioms, group_to_multiset_ensures;

    }
    if j == fds.len() {
        proof {
            assert(fds@.skip(j as int) =~= Seq::<i32>::empty());
            assert(Seq::<i32>::empty().to_multiset() =~= Multiset::<i32>::empty());
            assert(old(res).fds() =~= base);
        }
        return ;
    }
    let fd = fds[j];
    proof {
        let s = fds@.skip(j as int);
        assert(s.remove(0) =~= fds@.skip(j as int + 1));
        assert(s[0] == fd);
        assert(s.contains(fd));
        assert(s.to_multiset().count(fd) > 0);
        assert(s.remove(0).to_multiset() =~= s.to_multiset().remove(fd));
        assert(old(res).fds().count(fd) > 0);
    }
    let _ = res.close_owned(fd);
    proof {
        let s = fds@.skip(j as int);
        assert(res.fds() =~= base.add(fds@.skip(j as int + 1).to_multiset())) by {
            assert(res.fds() == base.add(s.to_multiset()).remove(fd));
            assert(s.to_multiset() =~= fds@.skip(j as int + 1).to_multiset().insert(fd));
            assert(base.add(fds@.skip(j as int + 1).to_multiset().insert(fd)).remove(fd)
                =~= base.add(fds@.skip(j as int + 1).to_multiset()));
        }
    }
    close_all_from(fds, j + 1, res, Ghost(base));
}

/// One descriptor operation a spawned child performs between the
/// fork-equivalent step and exec.
#[derive(Debug, Clone, Copy, PartialEq, Eq, Structural)]
pub enum SpawnStep {
    /// The child duplicates `src` onto `dst`.
    Dup2 { src: i32, dst: i32 },
    /// The child closes `fd`.
    CloseFd { fd: i32 },
}

/// The child-side steps for an action list, where `opened` lists, in request
/// order, the descriptors that the controlling process received when it opened
/// the actions' files: each opened file is duplicated onto its destination and
/// the controlling process's descriptor number is closed in the child.
pub open spec fn steps_from(s: Seq<FdAction>, opened: Seq<i32>) -> Seq<SpawnStep>
    decreases s.len(),
{
    if s.len() == 0 {
        Seq::empty()
    } else {
        let rest = s.drop_first();
        match s.first() {
            FdAction::DuplicateFd { src, dst } => seq![SpawnStep::Dup2 { src, dst }] + steps_from(
                rest,
                opened,
            ),
            FdAction::OpenFileAsFd { dst, .. } => if opened.len() > 0 {
                seq![
                    SpawnStep::Dup2 { src: opened.first(), dst },
                    SpawnStep::CloseFd { fd: opened.first() },
                ] + steps_from(rest, opened.drop_first())
            } else {
                steps_from(rest, opened)
            },
            FdAction::ClosePipeEnd { fd } => seq![SpawnStep::CloseFd { fd }] + steps_from(
                rest,
                opened,
            ),
        }
    }
}

/// The destination on which planning for a spawned child fails before any OS
/// call, scanning in request order: the first unrepresentable destination not
/// preceded by a file-opening action whose outcome the OS decides first.
pub open spec fn splan_first_err(s: Seq<FdAction>) -> Option<i32>
    decreases s.len(),
{
    if s.len() == 0 {
        None
    } else {
        match s.first() {
            FdAction::DuplicateFd { dst, .. } => if !fd_in_range(dst as int) {
                Some(dst)
            } else {
                splan_first_err(s.drop_first())
            },
            FdAction::OpenFileAsFd { dst, .. } => if !fd_in_range(dst as int) {
                Some(dst)
            } else {
                None
            },
            FdAction::ClosePipeEnd { .. } => splan_first_err(s.drop_first()),
        }
    }
}

/// Turns `actions[i..]` into child-side steps for an external stage, opening
/// redirection files in the controlling process (recorded in `opened`, not
/// closed here) so that a failure to open is caught before any process is
/// spawned. Destinations are validated before each open.
pub(crate) fn prep_steps_from(
    actions: &Vec<FdAction>,
    i: usize,
    steps: &mut Vec<SpawnStep>,
    res: &mut Resources,
    opened: &mut Vec<i32>,
) -> (r: Result<(), CommandError>)
    requires
        i <= actions@.len(),
    ensures
        final(res).pids() == old(res).pids(),
        old(opened)@.is_prefix_of(final(opened)@),
        final(res).fds() == old(res).fds().add(
            final(opened)@.skip(old(opened)@.len() as int).to_multiset(),
        ),
        r is Ok ==> final(steps)@ == old(steps)@ + steps_from(
            actions@.skip(i as int),
            final(opened)@.skip(old(opened)@.len() as int),
        ) && all_valid(actions@.skip(i as int)),
        r is Err ==> final(steps)@ == old(steps)@,
        splan_first_err(actions@.skip(i as int)) matches Some(d) ==> r == Err::<
            (),
            CommandError,
        >(CommandError::InvalidFd(d)),
        open_free(actions@.skip(i as int)) && all_valid(actions@.skip(i as int)) ==> r is Ok,
        r matches Err(CommandError::InvalidFd(d)) ==> !fd_in_range(d as int),
        r matches Err(CommandError::FdAsFile { fd, filename, .. }) ==> exists|j: int|
            i <= j < actions@.len() && ((#[trigger] actions@[j]) matches FdAction::OpenFileAsFd {
                path,
                dst,
                ..
            } && dst == fd && path@ == filename@),
        r is Err ==> (r matches Err(CommandError::InvalidFd(_)) || r matches Err(
            CommandError::FdAsFile { .. },
        )),
    decreases actions@.len() - i,
{
    proof {
        broadcast use group_multiset_axioms, group_to_multiset_ensures;

    }
    if i == actions.len() {
        proof {
            assert(opened@.skip(old(opened)@.len() as int) =~= Seq::<i32>::empty());
            assert(Seq::<i32>::empty().to_multiset() =~= Multiset::<i32>::empty());
            assert(res.fds() =~= old(res).fds().add(Multiset::<i32>::empty()));
            assert(steps@ =~= old(steps)@ + steps_from(
                actions@.skip(i as int),
                Seq::<i32>::empty(),
            ));
        }
        return Ok(());
    }
    let ghost pre = actions@.skip(i as int);
    proof {
        assert(pre.first() == actions@[i as int]);
        assert(pre.drop_first() =~= actions@.skip(i as int + 1));
    }
    match &actions[i] {
        FdAction::DuplicateFd { src, dst } => {
            if *dst < 0 || *dst > 255 {
                proof {
                    assert(opened@.skip(old(opened)@.len() as int) =~= Seq::<i32>::empty());
                    assert(Seq::<i32>::empty().to_multiset() =~= Multiset::<i32>::empty());
                    assert(res.fds() =~= old(res).fds().add(Multiset::<i32>::empty()));
                }
                return Err(CommandError::InvalidFd(*dst));
            }
            steps.push(SpawnStep::Dup2 { src: *src, dst: *dst });
            let r = prep_steps_from(actions, i + 1, steps, res, opened);
            match r {
                Ok(()) => {
                    proof {
                        let delta = opened@.skip(old(opened)@.len() as int);
                        assert(steps@ =~= old(steps)@ + steps_from(pre, delta));
                        assert forall|j: int| 0 <= j < pre.len() implies action_valid(
                            #[trigger] pre[j],
                        ) by {
                            if j > 0 {
                                assert(pre[j] == actions@.skip(i as int + 1)[j - 1]);
                            }
                        }
                        assert(all_valid(pre));
                    }
                    Ok(())
                },
                Err(e) => {
                    steps.pop();
                    proof {
                        assert(steps@ =~= old(steps)@);
                    }
                    Err(e)
                },
            }
        },
        FdAction::OpenFileAsFd { path, mode, dst } => {
            if *dst < 0 || *dst > 255 {
                proof {
                    assert(opened@.skip(old(opened)@.len() as int) =~= Seq::<i32>::empty());
                    assert(Seq::<i32>::empty().to_multiset() =~= Multiset::<i32>::empty());
                    assert(res.fds() =~= old(res).fds().add(Multiset::<i32>::empty()));
                }
                return Err(CommandError::InvalidFd(*dst));
            }
            match res.open_file(path, mode) {
                Ok(fd) => {
                    opened.push(fd);
                    steps.push(SpawnStep::Dup2 { src: fd, dst: *dst });
                    steps.push(SpawnStep::CloseFd { fd });
                    let ghost mid = opened@;
                    let r = prep_steps_from(actions, i + 1, steps, res, opened);
                    match r {
                        Ok(()) => {
                            proof {
                                let delta_all = opened@.skip(old(opened)@.len() as int);
                                let delta_rec = opened@.skip(mid.len() as int);
                                assert(mid == old(opened)@.push(fd));
                                assert(mid[old(opened)@.len() as int] == fd);
                                assert(mid =~= opened@.subrange(0, mid.len() as int));
                                assert(opened@[old(opened)@.len() as int] == fd);
                                assert(delta_all =~= seq![fd] + delta_rec);
                                assert(delta_all.len() > 0 && delta_all.first() == fd);
                                assert(delta_all.drop_first() =~= delta_rec);
                                lemma_multiset_commutative(seq![fd], delta_rec);
                                assert(seq![fd] =~= Seq::<i32>::empty().push(fd));
                                assert(seq![fd].to_multiset() =~= Multiset::<
                                    i32,
                                >::empty().insert(fd));
                                assert(res.fds() =~= old(res).fds().add(delta_all.to_multiset()));
                                assert(steps@ =~= old(steps)@ + steps_from(pre, delta_all));
                                assert forall|j: int| 0 <= j < pre.len() implies action_valid(
                                    #[trigger] pre[j],
                                ) by {
                                    if j > 0 {
                                        assert(pre[j] == actions@.skip(i as int + 1)[j - 1]);
                                    }
                                }
                                assert(all_valid(pre));
                            }
                            Ok(())
                        },
                        Err(e) => {
                            steps.pop();
                            steps.pop();
                            proof {
                                let delta_all = opened@.skip(old(opened)@.len() as int);
                                let delta_rec = opened@.skip(mid.len() as int);
                                assert(mid == old(opened)@.push(fd));
                                assert(mid[old(opened)@.len() as int] == fd);
                                assert(mid =~= opened@.subrange(0, mid.len() as int));
                                assert(opened@[old(opened)@.len() as int] == fd);
                                assert(delta_all =~= seq![fd] + delta_rec);
                                lemma_multiset_commutative(seq![fd], delta_rec);
                                assert(seq![fd] =~= Seq::<i32>::empty().push(fd));
                                assert(seq![fd].to_multiset() =~= Multiset::<
                                    i32,
                                >::empty().insert(fd));
                                assert(res.fds() =~= old(res).fds().add(delta_all.to_multiset()));
                                assert(steps@ =~= old(steps)@);
                            }
                            Err(e)
                        },
                    }
                },
                Err(msg) => {
                    proof {
                        assert(opened@.skip(old(opened)@.len() as int) =~= Seq::<i32>::empty());
                        assert(Seq::<i32>::empty().to_multiset() =~= Multiset::<i32>::empty());
                        assert(res.fds() =~= old(res).fds().add(Multiset::<i32>::empty()));
                    }
                    Err(CommandError::FdAsFile { err: msg, fd: *dst, filename: path.clone() })
                },
            }
        },
        FdAction::ClosePipeEnd { fd } => {
            steps.push(SpawnStep::CloseFd { fd: *fd });
            let r = prep_steps_from(actions, i + 1, steps, res, opened);
            match r {
                Ok(()) => {
                    proof {
                        let delta = opened@.skip(old(opened)@.len() as int);
                        assert(steps@ =~= old(steps)@ + steps_from(pre, delta));
                        assert forall|j: int| 0 <= j < pre.len() implies action_valid(
                            #[trigger] pre[j],
                        ) by {
                            if j > 0 {
                                assert(pre[j] == actions@.skip(i as int + 1)[j - 1]);
                            }
                        }
                        assert(all_valid(pre));
                    }
                    Ok(())
                },
                Err(e) => {
                    steps.pop();
                    proof {
                        assert(steps@ =~= old(steps)@);
                    }
                    Err(e)
                },
            }
        },
    }
}

} // verus!
