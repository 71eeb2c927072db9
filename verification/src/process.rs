//! Decisions over a snapshot of the running processes: whether a program
//! runs, whether a pid is alive, and which processes to terminate by name.

use vstd::prelude::*;
use crate::text;
use crate::text::{chars_of, eq_ignore_case};

verus! {

/// One entry of a process snapshot: its pid and executable file name.
pub struct ProcessEntry {
    pub pid: u32,
    pub name: String,
}

/// `name` equals one of `names`, ignoring ASCII case.
pub open spec fn name_listed(names: Seq<&str>, name: Seq<char>) -> bool {
    exists|i: int| 0 <= i < names.len() && text::eq_ignore_ascii_case(#[trigger] names[i]@, name)
}

/// The pids of the snapshot entries whose name is listed, in snapshot order.
pub open spec fn listed_pids(names: Seq<&str>, procs: Seq<ProcessEntry>) -> Seq<u32>
    decreases procs.len(),
{
    if procs.len() == 0 {
        Seq::empty()
    } else {
        let rest = listed_pids(names, procs.drop_last());
        if name_listed(names, procs.last().name@) {
            rest.push(procs.last().pid)
        } else {
            rest
        }
    }
}

/// Whether `name` is one of `names`, ignoring ASCII case.
pub fn is_listed(names: &[&str], name: &str) -> (res: bool)
    ensures
        res == name_listed(names@, name@),
{
    let target = chars_of(name);
    let mut i: usize = 0;
    while i < names.len()
        invariant
            i <= names@.len(),
            target@ == name@,
            forall|k: int| 0 <= k < i ==> !text::eq_ignore_ascii_case(#[trigger] names@[k]@, name@),
        decreases names.len() - i,
    {
        let candidate = chars_of(names[i]);
        if eq_ignore_case(candidate.as_slice(), target.as_slice()) {
            return true;
        }
        i += 1;
    }
    false
}

/// Whether a process whose name is one of `names` (ignoring ASCII case)
/// appears in the snapshot.
pub fn is_running(names: &[&str], procs: &[ProcessEntry]) -> (res: bool)
    ensures
        res == exists|j: int| 0 <= j < procs@.len() && name_listed(names@, (#[trigger] procs@[j]).name@),
{
    let mut j: usize = 0;
    while j < procs.len()
        invariant
            j <= procs@.len(),
            forall|k: int| 0 <= k < j ==> !name_listed(names@, (#[trigger] procs@[k]).name@),
        decreases procs.len() - j,
    {
        if is_listed(names, procs[j].name.as_str()) {
            return true;
        }
        j += 1;
    }
    false
}

/// Whether `pid` is a live process: never for pid 0, else whether the
/// snapshot holds it.
pub fn pid_alive(pid: u32, procs: &[ProcessEntry]) -> (res: bool)
    ensures
        res == (pid != 0 && exists|j: int| 0 <= j < procs@.len() && (#[trigger] procs@[j]).pid == pid),
{
    if pid == 0 {
        return false;
    }
    let mut j: usize = 0;
    while j < procs.len()
        invariant
            j <= procs@.len(),
            pid != 0,
            forall|k: int| 0 <= k < j ==> (#[trigger] procs@[k]).pid != pid,
        decreases procs.len() - j,
    {
        if procs[j].pid == pid {
            assert(procs@[j as int].pid == pid);
            return true;
        }
        j += 1;
    }
    false
}

/// The pids of the processes whose name is one of `names`, in snapshot order.
pub fn listed_pids_of(names: &[&str], procs: &[ProcessEntry]) -> (res: Vec<u32>)
    ensures
        res@ == listed_pids(names@, procs@),
{
    let mut res: Vec<u32> = Vec::new();
    let mut j: usize = 0;
    while j < procs.len()
        invariant
            j <= procs@.len(),
            res@ == listed_pids(names@, procs@.take(j as int)),
        decreases procs.len() - j,
    {
        let ghost pre = procs@.take(j as int);
        assert(procs@.take(j + 1).drop_last() =~= pre);
        assert(procs@.take(j + 1).last() == procs@[j as int]);
        if is_listed(names, procs[j].name.as_str()) {
            res.push(procs[j].pid);
        }
        j += 1;
    }
    assert(procs@.take(procs@.len() as int) =~= procs@);
    res
}

/// What to do next while terminating processes by name.
pub enum KillNext {
    /// Terminate this pid and report whether that succeeded.
    Kill(u32),
    /// Stop; whether some termination succeeded.
    Finished(bool),
}

/// Terminating the processes of some names, as closing by image name does:
/// every listed process in snapshot order, whatever became of the earlier
/// ones, then whether any termination succeeded.
pub struct KillByName {
    pids: Vec<u32>,
    next: usize,
    any: bool,
}

impl KillByName {
    /// The pids still to try, in order.
    pub closed spec fn pending(&self) -> Seq<u32> {
        self.pids@.skip(self.next as int)
    }

    /// Whether a termination reported so far succeeded.
    pub closed spec fn succeeded(&self) -> bool {
        self.any
    }

    pub closed spec fn wf(&self) -> bool {
        self.next <= self.pids@.len()
    }

    /// Step of the termination loop. `previous` is the outcome of the
    /// termination that the last step asked for (`None` on the first step).
    /// Every pending pid is asked for in turn; once none is left, the loop
    /// finishes with whether any termination succeeded.
    pub fn next(&mut self, previous: Option<bool>) -> (res: KillNext)
        requires
            old(self).wf(),
        ensures
            final(self).wf(),
            final(self).succeeded() == (old(self).succeeded() || previous == Some(true)),
            old(self).pending().len() == 0 ==> res == KillNext::Finished(final(self).succeeded())
                && final(self).pending() == old(self).pending(),
            old(self).pending().len() > 0 ==> res == KillNext::Kill(old(self).pending()[0])
                && final(self).pending() == old(self).pending().drop_first(),
    {
        if previous == Some(true) {
            self.any = true;
        }
        if self.next < self.pids.len() {
            let pid = self.pids[self.next];
            self.next = self.next + 1;
            assert(old(self).pending().drop_first() =~= self.pending());
            KillNext::Kill(pid)
        } else {
            KillNext::Finished(self.any)
        }
    }
}

/// Starts terminating every process whose name is one of `names` (ignoring
/// ASCII case): the returned plan yields all their pids in snapshot order.
pub fn kill_by_name(names: &[&str], procs: &[ProcessEntry]) -> (res: KillByName)
    ensures
        res.wf(),
        res.pending() == listed_pids(names@, procs@),
        !res.succeeded(),
{
    let pids = listed_pids_of(names, procs);
    let res = KillByName { pids, next: 0, any: false };
    assert(res.pending() =~= pids@);
    res
}

/// The length of a NUL-terminated UTF-16 name: the position of its first NUL,
/// or the whole buffer where there is none.
pub fn name_len(buf: &[u16]) -> (res: usize)
    ensures
        res <= buf@.len(),
        forall|i: int| 0 <= i < res ==> buf@[i] != 0,
        res < buf@.len() ==> buf@[res as int] == 0,
{
    let mut i: usize = 0;
    while i < buf.len() && buf[i] != 0
        invariant
            i <= buf@.len(),
            forall|k: int| 0 <= k < i ==> buf@[k] != 0,
        decreases buf.len() - i,
    {
        i += 1;
    }
    i
}

} // verus!
