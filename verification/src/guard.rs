//! The exit ordering guard: a lock with a shared and an exclusive mode that
//! protects no data and only puts things in order.
//!
//! Every line reader holds the guard in read mode for as long as it reads.
//! The process watcher takes it in write mode before it announces the exit,
//! which it can only do once no reader holds it. The guard never blocks: a
//! request is granted or refused at once, and a caller that has to wait asks
//! again when the state has changed.

use vstd::prelude::*;

verus! {

/// How a guard is held: by so many readers, or by the one writer.
enum Mode {
    Shared(usize),
    Exclusive,
}

/// A lock that any number of readers may hold together, or one writer alone.
pub struct ExitGuard {
    mode: Mode,
}

impl ExitGuard {
    /// How many holders the guard has in read mode.
    pub closed spec fn readers(&self) -> nat {
        match self.mode {
            Mode::Shared(n) => n as nat,
            Mode::Exclusive => 0,
        }
    }

    /// Whether the guard is held in write mode.
    pub closed spec fn writing(&self) -> bool {
        self.mode is Exclusive
    }

    /// Read mode and write mode exclude each other in every state of the
    /// guard: while it is held in write mode, nobody holds it in read mode.
    pub proof fn lemma_writer_is_alone(&self)
        ensures
            self.writing() ==> self.readers() == 0,
    {
    }

    /// A guard that nobody holds.
    pub fn new() -> (guard: ExitGuard)
        ensures
            guard.readers() == 0,
            !guard.writing(),
        no_unwind
    {
        ExitGuard { mode: Mode::Shared(0) }
    }

    /// How many holders the guard has in read mode.
    pub fn reader_count(&self) -> (n: usize)
        ensures
            n == self.readers(),
        no_unwind
    {
        match self.mode {
            Mode::Shared(n) => n,
            Mode::Exclusive => 0,
        }
    }

    /// Whether the guard is held in write mode.
    pub fn is_writing(&self) -> (writing: bool)
        ensures
            writing == self.writing(),
        no_unwind
    {
        match self.mode {
            Mode::Shared(_) => false,
            Mode::Exclusive => true,
        }
    }

    /// Asks for the guard in read mode. It is granted unless the guard is held
    /// in write mode (or the count of readers is at the limit of `usize`).
    pub fn try_read(&mut self) -> (granted: bool)
        ensures
            granted == (!old(self).writing() && old(self).readers() < usize::MAX),
            final(self).writing() == old(self).writing(),
            final(self).readers() == old(self).readers() + if granted { 1nat } else { 0nat },
        no_unwind
    {
        match self.mode {
            Mode::Shared(n) => {
                if n < usize::MAX {
                    self.mode = Mode::Shared(n + 1);
                    true
                } else {
                    false
                }
            },
            Mode::Exclusive => false,
        }
    }

    /// Gives up one hold in read mode. Returns whether there was one to give
    /// up.
    pub fn release_read(&mut self) -> (released: bool)
        ensures
            released == (old(self).readers() > 0),
            final(self).writing() == old(self).writing(),
            final(self).readers() == old(self).readers() - if released { 1nat } else { 0nat },
        no_unwind
    {
        match self.mode {
            Mode::Shared(n) => {
                if n > 0 {
                    self.mode = Mode::Shared(n - 1);
                    true
                } else {
                    false
                }
            },
            Mode::Exclusive => false,
        }
    }

    /// Asks for the guard in write mode. It is granted if and only if nobody
    /// holds the guard in either mode.
    pub fn try_write(&mut self) -> (granted: bool)
        ensures
            granted == (old(self).readers() == 0 && !old(self).writing()),
            final(self).writing() == (old(self).writing() || granted),
            final(self).readers() == old(self).readers(),
        no_unwind
    {
        match self.mode {
            Mode::Shared(n) => {
                if n == 0 {
                    self.mode = Mode::Exclusive;
                    true
                } else {
                    false
                }
            },
            Mode::Exclusive => false,
        }
    }

    /// Gives up the hold in write mode. Returns whether there was one to give
    /// up.
    pub fn release_write(&mut self) -> (released: bool)
        ensures
            released == old(self).writing(),
            !final(self).writing(),
            final(self).readers() == old(self).readers(),
        no_unwind
    {
        match self.mode {
            Mode::Shared(_) => false,
            Mode::Exclusive => {
                self.mode = Mode::Shared(0);
                true
            },
        }
    }
}

} // verus!
