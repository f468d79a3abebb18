//! The supervisor as a state machine, and what a run of it publishes.
//!
//! A run of a supervisor is the sequence of signals it took, in the order it
//! took them. Reads of the two streams and the return of the wait may come in
//! any order, so a run is any sequence of signals.

use vstd::prelude::*;
use crate::event::{EventView, Stream};
use crate::reader::ReadView;
use crate::watcher::{terminal_view, WatcherView};

verus! {

/// What the caller reports to a supervisor, with its texts as sequences of
/// characters.
pub enum SignalView {
    /// A read of one line from the given stream has returned.
    Read(Stream, ReadView),
    /// The wait for the child's exit has returned.
    Exited(Result<(), Seq<char>>),
    /// The watcher asks to announce the exit.
    Announce,
}

/// The state of a supervisor: which readers are still reading, and where the
/// watcher stands.
pub struct SupervisorView {
    pub stdout_open: bool,
    pub stderr_open: bool,
    pub watcher: WatcherView,
}

impl SupervisorView {
    /// The state right after the child was spawned: both readers read, the
    /// wait has not returned.
    pub open spec fn initial() -> SupervisorView {
        SupervisorView { stdout_open: true, stderr_open: true, watcher: WatcherView::Waiting }
    }

    /// Whether the reader of `stream` is still reading.
    pub open spec fn is_open(self, stream: Stream) -> bool {
        match stream {
            Stream::Stdout => self.stdout_open,
            Stream::Stderr => self.stderr_open,
        }
    }

    /// Whether both readers have stopped reading.
    pub open spec fn drained(self) -> bool {
        !self.stdout_open && !self.stderr_open
    }

    /// The terminal event is never out while a reader still reads.
    pub open spec fn inv(self) -> bool {
        self.watcher is Done ==> self.drained()
    }

    /// This state with the reader of `stream` stopped.
    pub open spec fn close(self, stream: Stream) -> SupervisorView {
        match stream {
            Stream::Stdout => SupervisorView { stdout_open: false, ..self },
            Stream::Stderr => SupervisorView { stderr_open: false, ..self },
        }
    }

    /// A read of `stream` has returned with `outcome`. A reader that still
    /// reads publishes every line and stops at the end of the stream or at a
    /// failure, which it publishes as an `Error`.
    pub open spec fn read(self, stream: Stream, outcome: ReadView) -> (
        SupervisorView,
        Option<EventView>,
    ) {
        if !self.is_open(stream) {
            (self, None)
        } else if outcome.keeps_open() {
            (self, outcome.emission(stream))
        } else {
            (self.close(stream), outcome.emission(stream))
        }
    }

    /// The wait for the child's exit has returned. The first report fixes the
    /// terminal event; nothing is published yet.
    pub open spec fn exit(self, wait: Result<(), Seq<char>>) -> SupervisorView {
        if self.watcher is Waiting {
            SupervisorView { watcher: WatcherView::Exited(terminal_view(wait)), ..self }
        } else {
            self
        }
    }

    /// The watcher asks to announce the exit. The terminal event is published
    /// if the wait has returned, both readers have stopped, and the event has
    /// not been published before.
    pub open spec fn announce(self) -> (SupervisorView, Option<EventView>) {
        if self.watcher is Exited && self.drained() {
            (SupervisorView { watcher: WatcherView::Done, ..self }, Some(self.watcher->Exited_0))
        } else {
            (self, None)
        }
    }

    /// The state after `signal`, and the event to publish for it.
    pub open spec fn step(self, signal: SignalView) -> (SupervisorView, Option<EventView>) {
        match signal {
            SignalView::Read(stream, outcome) => self.read(stream, outcome),
            SignalView::Exited(wait) => (self.exit(wait), None),
            SignalView::Announce => self.announce(),
        }
    }
}

/// Who published an event.
pub enum Source {
    /// The line reader of a stream.
    Reader(Stream),
    /// The process watcher.
    Watcher,
}

/// One entry of the record of what was published.
pub struct Published {
    pub source: Source,
    pub event: EventView,
}

impl Published {
    /// Whether this is the terminal event: the one the watcher published.
    pub open spec fn is_terminal(self) -> bool {
        self.source is Watcher
    }
}

/// The part of the supervisor that a signal is reported for.
pub open spec fn source_of(signal: SignalView) -> Source {
    match signal {
        SignalView::Read(stream, _) => Source::Reader(stream),
        SignalView::Exited(_) => Source::Watcher,
        SignalView::Announce => Source::Watcher,
    }
}

/// The state of a supervisor that has taken `signals` since the child was
/// spawned.
pub open spec fn run(signals: Seq<SignalView>) -> SupervisorView
    decreases signals.len(),
{
    if signals.len() == 0 {
        SupervisorView::initial()
    } else {
        run(signals.drop_last()).step(signals.last()).0
    }
}

/// What a supervisor that has taken `signals` has published, in order.
pub open spec fn log(signals: Seq<SignalView>) -> Seq<Published>
    decreases signals.len(),
{
    if signals.len() == 0 {
        Seq::empty()
    } else {
        let before = log(signals.drop_last());
        match run(signals.drop_last()).step(signals.last()).1 {
            Some(event) => before.push(Published { source: source_of(signals.last()), event }),
            None => before,
        }
    }
}

} // verus!
