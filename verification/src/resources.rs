//! Bookkeeping of the OS resources this core owns: the descriptors it has
//! opened and the children it has spawned but not yet waited on. Every
//! acquisition and every release goes through this ledger, so "each descriptor
//! is closed exactly once" and "every launched child is waited on" are
//! theorems about the ledger's multiset views.

use vstd::multiset::Multiset;
use vstd::prelude::*;
use vstd::seq_lib::group_to_multiset_ensures;

use crate::command::PipeEndpoint;
use crate::fdplan::OpenMode;
use crate::sys::sys_close;
use crate::sys::sys_open_file;
use crate::sys::sys_pipe;
use crate::sys::sys_spawn;
use crate::sys::sys_wait;
use crate::command::WaitOutcome;

verus! {

/// Removes one occurrence of `x` from `v`.
fn remove_one(v: &mut Vec<i32>, x: i32)
    requires
        old(v)@.to_multiset().count(x) > 0,
    ensures
        final(v)@.to_multiset() == old(v)@.to_multiset().remove(x),
{
    proof {
        broadcast use group_to_multiset_ensures;

        assert(v@.contains(x));
    }
    let mut i: usize = 0;
    while i < v.len()
        invariant
            i <= v@.len(),
            v@ == old(v)@,
            v@.contains(x),
            forall|k: int| 0 <= k < i ==> v@[k] != x,
        decreases v@.len() - i,
    {
        if v[i] == x {
            v.remove(i);
            proof {
                broadcast use group_to_multiset_ensures;

                assert(final(v)@.to_multiset() =~= old(v)@.to_multiset().remove(x));
            }
            return ;
        }
        i = i + 1;
    }
    proof {
        let j = choose|j: int| 0 <= j < v@.len() && v@[j] == x;
        assert(false);
    }
}

/// The ledger of live resources: the descriptors this core currently owns and
/// the children it has spawned and not yet collected.
pub struct Resources {
    fds: Vec<i32>,
    pids: Vec<i32>,
}

impl Resources {
    /// The descriptors this core currently owns, as a multiset of numbers.
    pub closed spec fn fds(&self) -> Multiset<i32> {
        self.fds@.to_multiset()
    }

    /// The children this core has spawned and not yet waited on.
    pub closed spec fn pids(&self) -> Multiset<i32> {
        self.pids@.to_multiset()
    }

    /// A fresh ledger owning nothing.
    pub fn new() -> (r: Resources)
        ensures
            r.fds() == Multiset::<i32>::empty(),
            r.pids() == Multiset::<i32>::empty(),
    {
        let r = Resources { fds: Vec::new(), pids: Vec::new() };
        proof {
            broadcast use group_to_multiset_ensures;

            assert(r.fds() =~= Multiset::<i32>::empty());
            assert(r.pids() =~= Multiset::<i32>::empty());
        }
        r
    }

    /// Creates one pipe and takes ownership of both of its descriptors.
    pub fn open_pipe(&mut self) -> (r: Result<PipeEndpoint, String>)
        ensures
            final(self).pids() == old(self).pids(),
            r matches Ok(e) ==> e.read_fd != e.write_fd && final(self).fds() == old(
                self,
            ).fds().insert(e.read_fd).insert(e.write_fd),
            r is Err ==> final(self).fds() == old(self).fds(),
    {
        match sys_pipe() {
            Ok((rd, wr)) => {
                self.fds.push(rd);
                self.fds.push(wr);
                proof {
                    broadcast use group_to_multiset_ensures;
                }
                Ok(PipeEndpoint { read_fd: rd, write_fd: wr })
            },
            Err(e) => Err(e),
        }
    }

    /// Opens `path` with `mode` and takes ownership of the descriptor.
    pub fn open_file(&mut self, path: &String, mode: &OpenMode) -> (r: Result<i32, String>)
        ensures
            final(self).pids() == old(self).pids(),
            r matches Ok(fd) ==> final(self).fds() == old(self).fds().insert(fd),
            r is Err ==> final(self).fds() == old(self).fds(),
    {
        match sys_open_file(path, mode) {
            Ok(fd) => {
                self.fds.push(fd);
                proof {
                    broadcast use group_to_multiset_ensures;
                }
                Ok(fd)
            },
            Err(e) => Err(e),
        }
    }

    /// Closes one owned descriptor and releases it from the ledger. The close
    /// is best-effort: the number is released whatever the OS reports, so it
    /// is never closed twice; a failure report is handed back.
    pub fn close_owned(&mut self, fd: i32) -> (r: Result<(), String>)
        requires
            old(self).fds().count(fd) > 0,
        ensures
            final(self).pids() == old(self).pids(),
            final(self).fds() == old(self).fds().remove(fd),
    {
        remove_one(&mut self.fds, fd);
        sys_close(fd)
    }

    /// Spawns `program` as a child process and takes ownership of the claim to
    /// wait on it.
    pub fn spawn_child(
        &mut self,
        argv: &Vec<Vec<u8>>,
        envp: &Vec<Vec<u8>>,
        fa: &nix::spawn::PosixSpawnFileActions,
    ) -> (r: Result<i32, String>)
        requires
            argv@.len() >= 1,
        ensures
            final(self).fds() == old(self).fds(),
            r matches Ok(pid) ==> pid > 0 && final(self).pids() == old(self).pids().insert(pid),
            r is Err ==> final(self).pids() == old(self).pids(),
    {
        match sys_spawn(argv, envp, fa) {
            Ok(pid) => {
                self.pids.push(pid);
                proof {
                    broadcast use group_to_multiset_ensures;
                }
                Ok(pid)
            },
            Err(e) => Err(e),
        }
    }

    /// Waits for one spawned child to terminate. The claim on the child is
    /// consumed whatever the OS reports, so no child is ever waited on twice.
    pub fn wait_child(&mut self, pid: i32) -> (r: Result<WaitOutcome, String>)
        requires
            old(self).pids().count(pid) > 0,
            pid > 0,
        ensures
            final(self).fds() == old(self).fds(),
            final(self).pids() == old(self).pids().remove(pid),
    {
        remove_one(&mut self.pids, pid);
        sys_wait(pid)
    }
}

} // verus!
