//! The handle of a child process.
//!
//! A handle owns the duty to terminate and reap its process. The duty ends in
//! one of two ways: the handle is released, and says which process is to be
//! terminated and reaped; or the handle is detached first, and its release
//! asks for nothing. A detached handle cannot be armed again.

use vstd::prelude::*;

verus! {

/// An owned process identifier.
#[derive(Debug, PartialEq, Eq)]
pub struct ChildProcess {
    pid: i32,
    detached: bool,
}

impl ChildProcess {
    /// The process identifier.
    pub closed spec fn pid(&self) -> i32 {
        self.pid
    }

    /// The handle was detached: its process runs on its own.
    pub closed spec fn detached(&self) -> bool {
        self.detached
    }

    /// The handle of a process that was just created.
    pub closed spec fn armed(pid: i32) -> ChildProcess {
        ChildProcess { pid, detached: false }
    }

    /// The handle after it was detached.
    pub closed spec fn forgotten(self) -> ChildProcess {
        ChildProcess { pid: self.pid, detached: true }
    }

    /// The process that a release of the handle asks to terminate and reap.
    pub open spec fn owed(&self) -> Option<i32> {
        if self.detached() {
            None
        } else {
            Some(self.pid())
        }
    }

    /// A handle that was just made is armed, for the process it was made for.
    pub proof fn lemma_armed(pid: i32)
        ensures
            ChildProcess::armed(pid).pid() == pid,
            !ChildProcess::armed(pid).detached(),
            ChildProcess::armed(pid).owed() == Some(pid),
    {
    }

    /// Detaching keeps the process and is permanent: a detached handle owes
    /// nothing, and detaching it again changes nothing.
    pub proof fn lemma_forgotten(self)
        ensures
            self.forgotten().pid() == self.pid(),
            self.forgotten().detached(),
            self.forgotten().owed() == None::<i32>,
            self.forgotten().forgotten() == self.forgotten(),
    {
    }

    /// Takes ownership of a process that was just created.
    pub fn new(pid: i32) -> (child: ChildProcess)
        ensures
            child == ChildProcess::armed(pid),
            child.pid() == pid,
            !child.detached(),
    {
        ChildProcess { pid, detached: false }
    }

    /// The process identifier.
    pub fn inner(&self) -> (pid: i32)
        ensures
            pid == self.pid(),
    {
        self.pid
    }

    /// Whether the handle was detached.
    pub fn is_detached(&self) -> (detached: bool)
        ensures
            detached == self.detached(),
    {
        self.detached
    }

    /// Detaches the handle: from now on its release asks for nothing, and
    /// nothing arms it again.
    pub fn forget(&mut self)
        ensures
            *final(self) == old(self).forgotten(),
            final(self).pid() == old(self).pid(),
            final(self).detached(),
            final(self).owed() == None::<i32>,
    {
        self.detached = true;
    }

    /// Gives the handle up. Returns the process to terminate and reap, or
    /// nothing if the handle was detached.
    pub fn release(self) -> (reap: Option<i32>)
        ensures
            reap == self.owed(),
    {
        if self.detached {
            None
        } else {
            Some(self.pid)
        }
    }
}

} // verus!
