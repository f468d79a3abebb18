//! The process watcher: the one producer of the terminal event.
//!
//! The watcher is told once how the wait for the child's exit ended. It then
//! holds the terminal event back until it has the exit ordering guard in
//! write mode, that is until every line reader has stopped reading, and hands
//! the event out exactly once.

use vstd::prelude::*;
use crate::event::{CommandEvent, EventView};
use crate::guard::ExitGuard;

verus! {

/// Where a watcher stands.
pub enum WatcherView {
    /// The wait for the child's exit has not returned yet.
    Waiting,
    /// The wait has returned; the terminal event is held back.
    Exited(EventView),
    /// The terminal event has been handed out.
    Done,
}

/// The terminal event for the way the wait ended: `Terminated` after a wait
/// that succeeded, `Error` with the description after one that failed.
pub open spec fn terminal_view(wait: Result<(), Seq<char>>) -> EventView {
    match wait {
        Ok(_) => EventView::Terminated,
        Err(message) => EventView::Error(message),
    }
}

/// The result of a wait, with the description of a failure as a sequence of
/// characters.
pub open spec fn wait_view(wait: Result<(), String>) -> Result<(), Seq<char>> {
    match wait {
        Ok(_) => Ok(()),
        Err(message) => Err(message@),
    }
}

/// The terminal event for the way the wait for the child's exit ended.
pub fn terminal_event(wait: Result<(), String>) -> (event: CommandEvent)
    ensures
        event@ == terminal_view(wait_view(wait)),
    no_unwind
{
    match wait {
        Ok(_) => CommandEvent::Terminated,
        Err(message) => CommandEvent::Error(message),
    }
}

/// The watcher of one child process.
pub struct ProcessWatcher {
    waited: bool,
    pending: Option<CommandEvent>,
}

impl View for ProcessWatcher {
    type V = WatcherView;

    closed spec fn view(&self) -> WatcherView {
        if !self.waited {
            WatcherView::Waiting
        } else {
            match self.pending {
                Some(event) => WatcherView::Exited(event@),
                None => WatcherView::Done,
            }
        }
    }
}

impl ProcessWatcher {
    /// A watcher whose wait has not returned yet.
    pub fn new() -> (watcher: ProcessWatcher)
        ensures
            watcher@ is Waiting,
        no_unwind
    {
        ProcessWatcher { waited: false, pending: None }
    }

    /// Whether the wait has returned.
    pub fn has_exited(&self) -> (exited: bool)
        ensures
            exited == !(self@ is Waiting),
        no_unwind
    {
        self.waited
    }

    /// Whether the terminal event has been handed out.
    pub fn is_done(&self) -> (done: bool)
        ensures
            done == (self@ is Done),
        no_unwind
    {
        match &self.pending {
            Some(_) => false,
            None => self.waited,
        }
    }

    /// Records how the wait for the child's exit ended. Only the first report
    /// counts: a watcher waits once.
    pub fn record_exit(&mut self, wait: Result<(), String>)
        ensures
            final(self)@ == if old(self)@ is Waiting {
                WatcherView::Exited(terminal_view(wait_view(wait)))
            } else {
                old(self)@
            },
        no_unwind
    {
        if !self.waited {
            self.pending = Some(terminal_event(wait));
            self.waited = true;
        }
    }

    /// Asks for the guard in write mode and, if it is granted, hands out the
    /// terminal event.
    ///
    /// The event is handed out if and only if the wait has returned, the
    /// event has not been handed out before, and nobody holds the guard. The
    /// watcher then keeps the guard in write mode. Otherwise nothing
    /// changes.
    pub fn announce(&mut self, guard: &mut ExitGuard) -> (event: Option<CommandEvent>)
        ensures
            event.deep_view() == if old(self)@ is Exited && old(guard).readers() == 0
                && !old(guard).writing() {
                Some(old(self)@->Exited_0)
            } else {
                None
            },
            final(self)@ == if event is Some {
                WatcherView::Done
            } else {
                old(self)@
            },
            final(guard).readers() == old(guard).readers(),
            final(guard).writing() == (old(guard).writing() || event is Some),
        no_unwind
    {
        let mut event: Option<CommandEvent> = None;
        if self.waited {
            let held = match &self.pending {
                Some(_) => true,
                None => false,
            };
            if held && guard.try_write() {
                core::mem::swap(&mut self.pending, &mut event);
            }
        }
        event
    }
}

} // verus!
