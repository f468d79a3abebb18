//! What holds of everything a supervisor publishes, and of the order it
//! publishes it in, whatever the order in which the reads of the two streams
//! and the wait for the child return.

use vstd::prelude::*;
use crate::event::{CommandEvent, EventView, Stream};
use crate::model::{log, run, source_of, Published, SignalView, Source, SupervisorView};
use crate::reader::ReadView;
use crate::supervisor::{Signal, Supervisor};
use crate::watcher::{terminal_view, WatcherView};

verus! {

/// The events of a record, in the order of the record.
pub open spec fn events_of(record: Seq<Published>) -> Seq<EventView> {
    Seq::new(record.len(), |i: int| record[i].event)
}

/// Runs a supervisor from the spawning of the child over `signals` and
/// returns the events it publishes, in the order it publishes them.
pub fn replay(signals: Vec<Signal>) -> (events: Vec<CommandEvent>)
    ensures
        events.deep_view() == events_of(log(signals.deep_view())),
{
    let ghost all = signals.deep_view();
    let mut supervisor = Supervisor::new();
    let mut events: Vec<CommandEvent> = Vec::new();
    assert(all.take(0) =~= Seq::empty());
    for signal in it: signals.into_iter()
        invariant
            it.seq().len() == all.len(),
            forall|i: int| 0 <= i < all.len() ==> (#[trigger] it.seq()[i])@ == all[i],
            supervisor@ == run(supervisor.history()),
            supervisor.history() == all.take(it.index() as int),
            events.deep_view() == events_of(supervisor.published()),
    {
        let ghost shown = events.deep_view();
        let ghost record = supervisor.published();
        assert(all.take(it.index() + 1) =~= all.take(it.index() as int).push(signal@));
        match supervisor.step(signal) {
            Some(event) => {
                events.push(event);
                assert(events.deep_view() =~= shown.push(event@));
                assert(events_of(supervisor.published()) =~= events_of(record).push(event@));
            },
            None => {
                assert(supervisor.published() =~= record);
            },
        }
    }
    assert(all.take(all.len() as int) =~= all);
    events
}

/// How the first wait reported in `signals` ended, if one was reported.
pub open spec fn first_exit(signals: Seq<SignalView>) -> Option<Result<(), Seq<char>>>
    decreases signals.len(),
{
    if signals.len() == 0 {
        None
    } else {
        match first_exit(signals.drop_last()) {
            Some(wait) => Some(wait),
            None => match signals.last() {
                SignalView::Exited(wait) => Some(wait),
                _ => None,
            },
        }
    }
}

/// How many terminal events a record holds.
pub open spec fn terminal_count(record: Seq<Published>) -> nat
    decreases record.len(),
{
    if record.len() == 0 {
        0
    } else {
        terminal_count(record.drop_last()) + if record.last().is_terminal() {
            1nat
        } else {
            0nat
        }
    }
}

/// Whether some read of `stream` in `signals` found the stream ended or
/// failed.
pub open spec fn stopped(signals: Seq<SignalView>, stream: Stream) -> bool
    decreases signals.len(),
{
    if signals.len() == 0 {
        false
    } else {
        stopped(signals.drop_last(), stream) || match signals.last() {
            SignalView::Read(s, outcome) => s == stream && !outcome.keeps_open(),
            _ => false,
        }
    }
}

/// Where the watcher stands after `signals`, and what the record holds of
/// it: the watcher waits until the first report of the wait, then holds the
/// event for that report, and the record holds a terminal event exactly when
/// the watcher is done.
proof fn lemma_watcher(signals: Seq<SignalView>)
    ensures
        run(signals).inv(),
        run(signals).watcher is Waiting <==> first_exit(signals) is None,
        run(signals).watcher matches WatcherView::Exited(event) ==> event == terminal_view(
            first_exit(signals)->Some_0,
        ),
        terminal_count(log(signals)) == if run(signals).watcher is Done {
            1nat
        } else {
            0nat
        },
        forall|i: int|
            0 <= i < log(signals).len() && log(signals)[i].is_terminal() ==> {
                &&& i == log(signals).len() - 1
                &&& run(signals).watcher is Done
                &&& log(signals)[i].event == terminal_view(first_exit(signals)->Some_0)
            },
    decreases signals.len(),
{
    if signals.len() > 0 {
        let earlier = signals.drop_last();
        lemma_watcher(earlier);
        let before = log(earlier);
        match run(earlier).step(signals.last()).1 {
            Some(event) => {
                let entry = Published { source: source_of(signals.last()), event };
                assert(log(signals) == before.push(entry));
                assert(log(signals).drop_last() =~= before);
            },
            None => {},
        }
    }
}

/// The terminal event is the last event: whatever a supervisor has taken,
/// nothing stands behind a terminal event in what it has published. A
/// consumer that subscribed at any point up to the terminal event and reads
/// on to the end therefore sees the terminal event last.
pub proof fn lemma_terminal_is_last(signals: Seq<SignalView>)
    ensures
        forall|i: int|
            0 <= i < log(signals).len() && #[trigger] log(signals)[i].is_terminal() ==> i == log(
                signals,
            ).len() - 1,
        forall|i: int, from: int|
            0 <= from <= i < log(signals).len() && #[trigger] log(signals)[i].is_terminal()
                ==> #[trigger] log(signals).skip(from).last() == log(signals)[i],
{
    lemma_watcher(signals);
}

/// The exit is announced only when the output is drained: if a terminal
/// event has been published, a read of each stream has found the stream
/// ended or has failed before, and neither reader reads any more.
pub proof fn lemma_terminal_after_drained(signals: Seq<SignalView>)
    ensures
        run(signals).inv(),
        forall|i: int|
            0 <= i < log(signals).len() && #[trigger] log(signals)[i].is_terminal() ==> {
                &&& run(signals).drained()
                &&& stopped(signals, Stream::Stdout)
                &&& stopped(signals, Stream::Stderr)
            },
{
    lemma_watcher(signals);
    lemma_lines_in_order(signals, Stream::Stdout);
    lemma_lines_in_order(signals, Stream::Stderr);
}

/// At most one terminal event is ever published, and exactly one has been
/// published once the watcher is done. It is `Terminated` if the wait for
/// the child succeeded and `Error` with the wait's description if it failed,
/// going by the first report of the wait.
pub proof fn lemma_one_terminal(signals: Seq<SignalView>)
    ensures
        terminal_count(log(signals)) <= 1,
        terminal_count(log(signals)) == 1 <==> run(signals).watcher is Done,
        forall|i: int, j: int|
            0 <= i < log(signals).len() && 0 <= j < log(signals).len() && #[trigger] log(
                signals,
            )[i].is_terminal() && #[trigger] log(signals)[j].is_terminal() ==> i == j,
        forall|i: int|
            0 <= i < log(signals).len() && #[trigger] log(signals)[i].is_terminal() ==> {
                &&& first_exit(signals) is Some
                &&& log(signals)[i].event == terminal_view(first_exit(signals)->Some_0)
                &&& log(signals)[i].event is Terminated <==> first_exit(signals)->Some_0 is Ok
                &&& log(signals)[i].event is Error <==> first_exit(signals)->Some_0 is Err
            },
{
    lemma_watcher(signals);
}

/// The terminal event comes as soon as it can: once the wait has returned
/// and both readers have stopped, the next request to announce the exit
/// publishes it. Until then a request publishes nothing.
pub proof fn lemma_announce(signals: Seq<SignalView>)
    ensures
        ({
            let state = run(signals);
            let after = signals.push(SignalView::Announce);
            if state.watcher is Exited && state.drained() {
                &&& log(after).len() == log(signals).len() + 1
                &&& log(after).last().is_terminal()
                &&& run(after).watcher is Done
            } else {
                &&& log(after) == log(signals)
                &&& run(after) == state
            }
        }),
{
    let after = signals.push(SignalView::Announce);
    assert(after.drop_last() =~= signals);
}

/// The lines that `signals` report as read from `stream`, in the order read,
/// up to the first read that found the stream ended or failed.
pub open spec fn lines_read(signals: Seq<SignalView>, stream: Stream) -> Seq<Seq<char>>
    decreases signals.len(),
{
    if signals.len() == 0 {
        Seq::empty()
    } else {
        let before = lines_read(signals.drop_last(), stream);
        match signals.last() {
            SignalView::Read(s, ReadView::Line(text)) => if s == stream && !stopped(
                signals.drop_last(),
                stream,
            ) {
                before.push(text)
            } else {
                before
            },
            _ => before,
        }
    }
}

/// The texts of the output events of `stream` in a record, in the order of
/// the record.
pub open spec fn lines_published(record: Seq<Published>, stream: Stream) -> Seq<Seq<char>>
    decreases record.len(),
{
    if record.len() == 0 {
        Seq::empty()
    } else {
        let before = lines_published(record.drop_last(), stream);
        if record.last().event.is_line_of(stream) {
            before.push(record.last().event.text())
        } else {
            before
        }
    }
}

/// Lines go through in order and untouched: the output events published for
/// a stream carry exactly the lines that were read from it, each text as it
/// was read, in the order they were read. Only the reader of a stream
/// publishes output events of that stream, and it reads until the first read
/// that finds the stream ended or fails.
pub proof fn lemma_lines_in_order(signals: Seq<SignalView>, stream: Stream)
    ensures
        lines_published(log(signals), stream) == lines_read(signals, stream),
        run(signals).is_open(stream) == !stopped(signals, stream),
        forall|i: int|
            0 <= i < log(signals).len() && #[trigger] log(signals)[i].event.is_line_of(stream)
                ==> log(signals)[i].source == Source::Reader(stream),
    decreases signals.len(),
{
    if signals.len() > 0 {
        let earlier = signals.drop_last();
        lemma_lines_in_order(earlier, stream);
        lemma_watcher(earlier);
        let before = log(earlier);
        match run(earlier).step(signals.last()).1 {
            Some(event) => {
                let entry = Published { source: source_of(signals.last()), event };
                assert(log(signals) == before.push(entry));
                assert(log(signals).drop_last() =~= before);
            },
            None => {},
        }
    }
}

/// `signal`, with a failed read of `stream` taken for the end of the stream.
pub open spec fn calmed(signal: SignalView, stream: Stream) -> SignalView {
    match signal {
        SignalView::Read(s, ReadView::Failed(_)) => if s == stream {
            SignalView::Read(s, ReadView::EndOfStream)
        } else {
            signal
        },
        _ => signal,
    }
}

/// `signals`, with every failed read of `stream` taken for the end of the
/// stream.
pub open spec fn calm(signals: Seq<SignalView>, stream: Stream) -> Seq<SignalView> {
    Seq::new(signals.len(), |i: int| calmed(signals[i], stream))
}

/// Whether an entry is the report of a failed read of `stream`.
pub open spec fn is_failure_of(entry: Published, stream: Stream) -> bool {
    entry.source == Source::Reader(stream) && entry.event is Error
}

/// A record without the reports of failed reads of `stream`.
pub open spec fn without_failures(record: Seq<Published>, stream: Stream) -> Seq<Published>
    decreases record.len(),
{
    if record.len() == 0 {
        Seq::empty()
    } else {
        let before = without_failures(record.drop_last(), stream);
        if is_failure_of(record.last(), stream) {
            before
        } else {
            before.push(record.last())
        }
    }
}

/// A failed read stops its own reader and nothing else. The reader that is
/// still reading publishes one `Error` event with the description of the
/// failure, which is no terminal event, and stops. The state it leaves is the
/// state that the end of its stream would have left: the watcher stands where
/// it stood, the other reader reads on if it was reading, and both will
/// publish for every later signal what they would have published anyway.
pub proof fn lemma_failure_is_contained(
    state: SupervisorView,
    stream: Stream,
    message: Seq<char>,
)
    requires
        state.is_open(stream),
    ensures
        state.read(stream, ReadView::Failed(message)).1 == Some(EventView::Error(message)),
        !(Published {
            source: source_of(SignalView::Read(stream, ReadView::Failed(message))),
            event: EventView::Error(message),
        }).is_terminal(),
        state.read(stream, ReadView::Failed(message)).0 == state.read(
            stream,
            ReadView::EndOfStream,
        ).0,
        !state.read(stream, ReadView::Failed(message)).0.is_open(stream),
        state.read(stream, ReadView::Failed(message)).0.watcher == state.watcher,
        forall|other: Stream|
            other != stream ==> #[trigger] state.read(
                stream,
                ReadView::Failed(message),
            ).0.is_open(other) == state.is_open(other),
        forall|other: Stream, outcome: ReadView|
            other != stream ==> (#[trigger] state.read(stream, ReadView::Failed(message)).0.read(
                other,
                outcome,
            )).1 == state.read(other, outcome).1,
{
}

/// A failed read on one stream takes nothing away from the rest of the run.
/// Whatever a supervisor has taken, it stands where it would stand, and has
/// published what it would have published, had every failed read of `stream`
/// been the end of that stream; on top of that it has published the reports
/// of the failures, of which there is at most one for a stream. So the lines
/// of the other stream and the terminal event come as they would have come.
pub proof fn lemma_failure_leaves_the_rest(signals: Seq<SignalView>, stream: Stream)
    ensures
        run(signals) == run(calm(signals, stream)),
        without_failures(log(signals), stream) == log(calm(signals, stream)),
        forall|i: int|
            0 <= i < log(signals).len() && #[trigger] is_failure_of(log(signals)[i], stream)
                ==> !run(signals).is_open(stream),
        forall|i: int, j: int|
            0 <= i < log(signals).len() && 0 <= j < log(signals).len() && #[trigger] is_failure_of(
                log(signals)[i],
                stream,
            ) && #[trigger] is_failure_of(log(signals)[j], stream) ==> i == j,
    decreases signals.len(),
{
    let calmer = calm(signals, stream);
    if signals.len() > 0 {
        let earlier = signals.drop_last();
        lemma_failure_leaves_the_rest(earlier, stream);
        lemma_watcher(earlier);
        lemma_watcher(calm(earlier, stream));
        assert(calmer.drop_last() =~= calm(earlier, stream));
        assert(calmer.last() == calmed(signals.last(), stream));
        let before = log(earlier);
        match run(earlier).step(signals.last()).1 {
            Some(event) => {
                let entry = Published { source: source_of(signals.last()), event };
                assert(log(signals) == before.push(entry));
                assert(log(signals).drop_last() =~= before);
            },
            None => {},
        }
    } else {
        assert(calmer =~= Seq::empty());
    }
}

} // verus!
