//! The line reader: one per captured stream.
//!
//! A reader is handed the outcome of each read of one line from its stream and
//! decides what to publish and whether to go on. It publishes every line it is
//! handed, untouched and in the order read, until the stream ends or a read
//! fails.

use vstd::prelude::*;
use crate::event::{CommandEvent, EventView, Stream};

verus! {

/// What one attempt to read a line from a captured stream came to.
#[derive(Debug, PartialEq, Eq)]
pub enum ReadOutcome {
    /// A line was read. The text is what the stream held: it ends with the
    /// line terminator, unless the stream closed in the middle of a line.
    Line(String),
    /// Nothing was read: the stream is closed and drained.
    EndOfStream,
    /// The read failed; the text describes the failure.
    Failed(String),
}

/// A [`ReadOutcome`] with its text as a sequence of characters.
pub enum ReadView {
    Line(Seq<char>),
    EndOfStream,
    Failed(Seq<char>),
}

impl View for ReadOutcome {
    type V = ReadView;

    open spec fn view(&self) -> ReadView {
        match self {
            ReadOutcome::Line(text) => ReadView::Line(text@),
            ReadOutcome::EndOfStream => ReadView::EndOfStream,
            ReadOutcome::Failed(message) => ReadView::Failed(message@),
        }
    }
}

impl ReadView {
    /// The outcome that a raw read result stands for: a read of zero bytes is
    /// the end of the stream, a read of more is a line, an error is a failure.
    pub open spec fn classify(count: Result<usize, Seq<char>>, text: Seq<char>) -> ReadView {
        match count {
            Ok(n) => if n == 0 {
                ReadView::EndOfStream
            } else {
                ReadView::Line(text)
            },
            Err(message) => ReadView::Failed(message),
        }
    }

    /// Whether a reader goes on reading after this outcome.
    pub open spec fn keeps_open(self) -> bool {
        self is Line
    }

    /// What a reader of `stream` publishes for this outcome.
    pub open spec fn emission(self, stream: Stream) -> Option<EventView> {
        match self {
            ReadView::Line(text) => Some(EventView::line(stream, text)),
            ReadView::EndOfStream => None,
            ReadView::Failed(message) => Some(EventView::Error(message)),
        }
    }
}

impl ReadOutcome {
    /// Classifies the result of reading one line into `text`: `count` is the
    /// number of bytes the read took from the stream, or the description of
    /// the error it failed with.
    pub fn classify(count: Result<usize, String>, text: String) -> (outcome: ReadOutcome)
        ensures
            outcome@ == ReadView::classify(
                match count {
                    Ok(n) => Ok(n),
                    Err(message) => Err(message@),
                },
                text@,
            ),
        no_unwind
    {
        match count {
            Ok(n) => {
                if n == 0 {
                    ReadOutcome::EndOfStream
                } else {
                    ReadOutcome::Line(text)
                }
            },
            Err(message) => ReadOutcome::Failed(message),
        }
    }
}

/// The reader of one captured stream. It is open from its creation until the
/// first read that finds the stream ended or fails.
#[derive(Clone, Copy, Debug)]
pub struct LineReader {
    stream: Stream,
    open: bool,
}

impl LineReader {
    /// The stream this reader drains.
    pub closed spec fn source(&self) -> Stream {
        self.stream
    }

    /// Whether this reader is still reading.
    pub closed spec fn reading(&self) -> bool {
        self.open
    }

    /// A reader of `stream`, about to read its first line.
    pub fn new(stream: Stream) -> (reader: LineReader)
        ensures
            reader.source() == stream,
            reader.reading(),
        no_unwind
    {
        LineReader { stream, open: true }
    }

    /// The stream this reader drains.
    pub fn stream(&self) -> (stream: Stream)
        ensures
            stream == self.source(),
        no_unwind
    {
        self.stream
    }

    /// Whether this reader is still reading.
    pub fn is_open(&self) -> (open: bool)
        ensures
            open == self.reading(),
        no_unwind
    {
        self.open
    }

    /// Takes the outcome of one read and returns what to publish for it.
    ///
    /// While the reader is open, a line is published as an output event of the
    /// reader's stream and the reader stays open; the end of the stream
    /// publishes nothing and closes the reader; a failure publishes one
    /// `Error` event and closes the reader. A closed reader publishes nothing.
    pub fn on_read(&mut self, outcome: ReadOutcome) -> (event: Option<CommandEvent>)
        ensures
            final(self).source() == old(self).source(),
            final(self).reading() == (old(self).reading() && outcome@.keeps_open()),
            event.deep_view() == if old(self).reading() {
                outcome@.emission(old(self).source())
            } else {
                None
            },
        no_unwind
    {
        if !self.open {
            return None;
        }
        match outcome {
            ReadOutcome::Line(text) => Some(CommandEvent::line(self.stream, text)),
            ReadOutcome::EndOfStream => {
                self.open = false;
                None
            },
            ReadOutcome::Failed(message) => {
                self.open = false;
                Some(CommandEvent::Error(message))
            },
        }
    }
}

} // verus!
