//! The supervisor: two line readers, the process watcher and the exit
//! ordering guard, put together.
//!
//! The caller runs the child and does the blocking work. Whenever a read of a
//! captured stream returns, or the wait for the child returns, it reports the
//! outcome here. The supervisor decides which event is due and either hands it
//! back, for the caller to publish before it reports anything else
//! ([`Supervisor::step`]), or sends it on the event bus itself
//! ([`Supervisor::relay`]). After the wait has returned the caller asks for
//! the announcement of the exit, again after every reader that stops, until
//! the terminal event is out.

use vstd::prelude::*;
use tokio::sync::broadcast::Sender;
use crate::bus::{is_outcome_of, publish};
use crate::event::{CommandEvent, EventView, Stream};
use crate::guard::ExitGuard;
use crate::model::{log, run, source_of, Published, SignalView, SupervisorView};
use crate::reader::{LineReader, ReadOutcome};
use crate::watcher::{terminal_view, wait_view, ProcessWatcher, WatcherView};

verus! {

/// What the caller reports to the supervisor.
#[derive(Debug, PartialEq, Eq)]
pub enum Signal {
    /// A read of one line from the given stream has returned.
    Read(Stream, ReadOutcome),
    /// The wait for the child's exit has returned: `Ok` if the child was seen
    /// to exit, `Err` with the description of the error if the wait failed.
    Exited(Result<(), String>),
    /// The watcher asks to announce the exit.
    Announce,
}

impl View for Signal {
    type V = SignalView;

    open spec fn view(&self) -> SignalView {
        match self {
            Signal::Read(stream, outcome) => SignalView::Read(*stream, outcome@),
            Signal::Exited(wait) => SignalView::Exited(wait_view(*wait)),
            Signal::Announce => SignalView::Announce,
        }
    }
}

impl DeepView for Signal {
    type V = SignalView;

    open spec fn deep_view(&self) -> SignalView {
        self@
    }
}

/// The supervisor of one child process.
pub struct Supervisor {
    stdout: LineReader,
    stderr: LineReader,
    guard: ExitGuard,
    watcher: ProcessWatcher,
    taken: Ghost<Seq<SignalView>>,
}

impl View for Supervisor {
    type V = SupervisorView;

    closed spec fn view(&self) -> SupervisorView {
        SupervisorView {
            stdout_open: self.stdout.reading(),
            stderr_open: self.stderr.reading(),
            watcher: self.watcher@,
        }
    }
}

impl Supervisor {
    /// The number of readers that still read.
    spec fn open_readers(&self) -> nat {
        (if self.stdout.reading() {
            1nat
        } else {
            0nat
        }) + (if self.stderr.reading() {
            1nat
        } else {
            0nat
        })
    }

    /// The signals this supervisor has taken since the child was spawned, in
    /// the order it took them.
    pub closed spec fn history(&self) -> Seq<SignalView> {
        self.taken@
    }

    /// What this supervisor has published since the child was spawned, in
    /// order.
    pub open spec fn published(&self) -> Seq<Published> {
        log(self.history())
    }

    /// What is added to the record of what was published when `event` is
    /// handed out for `signal`.
    pub open spec fn entry(signal: SignalView, event: Option<EventView>) -> Seq<Published> {
        match event {
            Some(event) => seq![Published { source: source_of(signal), event }],
            None => Seq::empty(),
        }
    }

    /// The parts fit together: each reader drains its own stream, the guard
    /// is held in read mode once for every reader that still reads and in
    /// write mode once the terminal event is out, and the supervisor stands
    /// where the signals it has taken have brought it.
    #[verifier::type_invariant]
    closed spec fn wf(&self) -> bool {
        &&& self.stdout.source() == Stream::Stdout
        &&& self.stderr.source() == Stream::Stderr
        &&& self.guard.readers() == self.open_readers()
        &&& self.guard.writing() == (self.watcher@ is Done)
        &&& self@ == run(self.taken@)
    }

    /// Taking one more signal adds to the record what the step hands out.
    proof fn lemma_record_grows(history: Seq<SignalView>, signal: SignalView)
        ensures
            run(history.push(signal)) == run(history).step(signal).0,
            log(history.push(signal)) == log(history) + Self::entry(
                signal,
                run(history).step(signal).1,
            ),
    {
        assert(history.push(signal).drop_last() =~= history);
        match run(history).step(signal).1 {
            Some(event) => {
                assert(log(history) + Self::entry(signal, Some(event)) =~= log(history).push(
                    Published { source: source_of(signal), event },
                ));
            },
            None => {
                assert(log(history) + Self::entry(signal, None) =~= log(history));
            },
        }
    }

    /// The supervisor of a child that was just spawned: each reader holds the
    /// guard in read mode and is about to read its first line.
    pub fn new() -> (supervisor: Supervisor)
        ensures
            supervisor@ == SupervisorView::initial(),
            supervisor.history() == Seq::<SignalView>::empty(),
        no_unwind
    {
        let mut guard = ExitGuard::new();
        let stdout = LineReader::new(Stream::Stdout);
        guard.try_read();
        let stderr = LineReader::new(Stream::Stderr);
        guard.try_read();
        Supervisor {
            stdout,
            stderr,
            guard,
            watcher: ProcessWatcher::new(),
            taken: Ghost(Seq::empty()),
        }
    }

    /// One read, on the parts it touches: the reader takes the outcome, gives
    /// up its hold of the guard if it stops, and the signal is put on record.
    fn read_with(
        reader: &mut LineReader,
        guard: &mut ExitGuard,
        taken: &mut Ghost<Seq<SignalView>>,
        outcome: ReadOutcome,
    ) -> (event: Option<CommandEvent>)
        ensures
            final(reader).source() == old(reader).source(),
            final(reader).reading() == (old(reader).reading() && outcome@.keeps_open()),
            event.deep_view() == if old(reader).reading() {
                outcome@.emission(old(reader).source())
            } else {
                None
            },
            final(guard).writing() == old(guard).writing(),
            final(guard).readers() == old(guard).readers() - if old(reader).reading()
                && !outcome@.keeps_open() && old(guard).readers() > 0 {
                1nat
            } else {
                0nat
            },
            final(taken)@ == old(taken)@.push(SignalView::Read(old(reader).source(), outcome@)),
        no_unwind
    {
        proof {
            *taken = Ghost(taken@.push(SignalView::Read(reader.source(), outcome@)));
        }
        let was_open = reader.is_open();
        let event = reader.on_read(outcome);
        if was_open && !reader.is_open() {
            guard.release_read();
        }
        event
    }

    /// The return of the wait, on the parts it touches.
    fn exit_with(
        watcher: &mut ProcessWatcher,
        taken: &mut Ghost<Seq<SignalView>>,
        wait: Result<(), String>,
    )
        ensures
            final(watcher)@ == if old(watcher)@ is Waiting {
                WatcherView::Exited(terminal_view(wait_view(wait)))
            } else {
                old(watcher)@
            },
            final(taken)@ == old(taken)@.push(SignalView::Exited(wait_view(wait))),
        no_unwind
    {
        proof {
            *taken = Ghost(taken@.push(SignalView::Exited(wait_view(wait))));
        }
        watcher.record_exit(wait);
    }

    /// A request to announce the exit, on the parts it touches.
    fn announce_with(
        watcher: &mut ProcessWatcher,
        guard: &mut ExitGuard,
        taken: &mut Ghost<Seq<SignalView>>,
    ) -> (event: Option<CommandEvent>)
        ensures
            event.deep_view() == if old(watcher)@ is Exited && old(guard).readers() == 0
                && !old(guard).writing() {
                Some(old(watcher)@->Exited_0)
            } else {
                None
            },
            final(watcher)@ == if event is Some {
                WatcherView::Done
            } else {
                old(watcher)@
            },
            final(guard).readers() == old(guard).readers(),
            final(guard).writing() == (old(guard).writing() || event is Some),
            final(taken)@ == old(taken)@.push(SignalView::Announce),
        no_unwind
    {
        proof {
            *taken = Ghost(taken@.push(SignalView::Announce));
        }
        watcher.announce(guard)
    }

    /// Whether the reader of `stream` is still reading.
    pub fn is_reading(&self, stream: Stream) -> (open: bool)
        ensures
            open == self@.is_open(stream),
        no_unwind
    {
        match stream {
            Stream::Stdout => self.stdout.is_open(),
            Stream::Stderr => self.stderr.is_open(),
        }
    }

    /// Whether the wait for the child's exit has returned.
    pub fn has_exited(&self) -> (exited: bool)
        ensures
            exited == !(self@.watcher is Waiting),
        no_unwind
    {
        self.watcher.has_exited()
    }

    /// Whether the terminal event is out.
    pub fn is_terminated(&self) -> (done: bool)
        ensures
            done == (self@.watcher is Done),
        no_unwind
    {
        self.watcher.is_done()
    }

    /// Reports that a read of `stream` has returned with `outcome`, and
    /// returns the event to publish for it. A reader that stops gives up its
    /// hold of the guard.
    pub fn on_read(&mut self, stream: Stream, outcome: ReadOutcome) -> (event: Option<
        CommandEvent,
    >)
        ensures
            final(self)@ == run(final(self).history()),
            (final(self)@, event.deep_view()) == old(self)@.read(stream, outcome@),
            final(self).history() == old(self).history().push(SignalView::Read(stream, outcome@)),
            final(self).published() == old(self).published() + Self::entry(
                SignalView::Read(stream, outcome@),
                event.deep_view(),
            ),
        no_unwind
    {
        proof {
            use_type_invariant(&*self);
            Self::lemma_record_grows(self.taken@, SignalView::Read(stream, outcome@));
        }
        match stream {
            Stream::Stdout => Self::read_with(
                &mut self.stdout,
                &mut self.guard,
                &mut self.taken,
                outcome,
            ),
            Stream::Stderr => Self::read_with(
                &mut self.stderr,
                &mut self.guard,
                &mut self.taken,
                outcome,
            ),
        }
    }

    /// Reports how the wait for the child's exit ended. Nothing is published
    /// for it yet: see [`Supervisor::announce`].
    pub fn on_exit(&mut self, wait: Result<(), String>)
        ensures
            final(self)@ == run(final(self).history()),
            final(self)@ == old(self)@.exit(wait_view(wait)),
            final(self).history() == old(self).history().push(SignalView::Exited(wait_view(wait))),
            final(self).published() == old(self).published(),
        no_unwind
    {
        proof {
            use_type_invariant(&*self);
            Self::lemma_record_grows(self.taken@, SignalView::Exited(wait_view(wait)));
        }
        Self::exit_with(&mut self.watcher, &mut self.taken, wait);
    }

    /// Asks to announce the exit: the watcher tries to take the guard in write
    /// mode. Returns the terminal event if the wait has returned, both
    /// readers have stopped and the event was not returned before; otherwise
    /// nothing, and the caller asks again once another reader has stopped.
    pub fn announce(&mut self) -> (event: Option<CommandEvent>)
        ensures
            final(self)@ == run(final(self).history()),
            (final(self)@, event.deep_view()) == old(self)@.announce(),
            final(self).history() == old(self).history().push(SignalView::Announce),
            final(self).published() == old(self).published() + Self::entry(
                SignalView::Announce,
                event.deep_view(),
            ),
        no_unwind
    {
        proof {
            use_type_invariant(&*self);
            self.guard.lemma_writer_is_alone();
            Self::lemma_record_grows(self.taken@, SignalView::Announce);
        }
        Self::announce_with(&mut self.watcher, &mut self.guard, &mut self.taken)
    }

    /// Takes one signal and returns the event to publish for it, if any.
    pub fn step(&mut self, signal: Signal) -> (event: Option<CommandEvent>)
        ensures
            final(self)@ == run(final(self).history()),
            (final(self)@, event.deep_view()) == old(self)@.step(signal@),
            final(self).history() == old(self).history().push(signal@),
            final(self).published() == old(self).published() + Self::entry(
                signal@,
                event.deep_view(),
            ),
        no_unwind
    {
        match signal {
            Signal::Read(stream, outcome) => self.on_read(stream, outcome),
            Signal::Exited(wait) => {
                self.on_exit(wait);
                None
            },
            Signal::Announce => self.announce(),
        }
    }

    /// Takes one signal and sends the event that is due for it on the bus,
    /// before anything else can be reported. The supervisor moves on as in
    /// [`Supervisor::step`], whatever becomes of the event.
    ///
    /// Returns the number of receivers that were subscribed when the event was
    /// sent, and zero if no event was due. If an event was due and the bus had
    /// no receiver, the event comes back as the error.
    pub fn relay(&mut self, bus: &Sender<CommandEvent>, signal: Signal) -> (sent: Result<
        usize,
        CommandEvent,
    >)
        ensures
            final(self)@ == run(final(self).history()),
            final(self)@ == old(self)@.step(signal@).0,
            final(self).history() == old(self).history().push(signal@),
            final(self).published() == old(self).published() + Self::entry(
                signal@,
                old(self)@.step(signal@).1,
            ),
            is_outcome_of(sent, old(self)@.step(signal@).1),
    {
        let event = self.step(signal);
        publish(bus, event)
    }
}

} // verus!
