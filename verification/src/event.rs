//! The events a supervisor publishes.

use vstd::prelude::*;

verus! {

/// One of the child's two captured streams.
#[derive(Clone, Copy, Debug, PartialEq, Eq, Structural)]
pub enum Stream {
    Stdout,
    Stderr,
}

/// One item of the event stream of a supervised child.
#[derive(Debug, PartialEq, Eq)]
pub enum CommandEvent {
    /// One line of standard error, as captured.
    Stderr(String),
    /// One line of standard output, as captured.
    Stdout(String),
    /// The description of a failure: of reading a stream, or of waiting for
    /// the child.
    Error(String),
    /// The child has exited and no further output will arrive.
    Terminated,
}

/// A [`CommandEvent`] with its text as a sequence of characters.
pub enum EventView {
    Stderr(Seq<char>),
    Stdout(Seq<char>),
    Error(Seq<char>),
    Terminated,
}

impl View for CommandEvent {
    type V = EventView;

    open spec fn view(&self) -> EventView {
        match self {
            CommandEvent::Stderr(text) => EventView::Stderr(text@),
            CommandEvent::Stdout(text) => EventView::Stdout(text@),
            CommandEvent::Error(message) => EventView::Error(message@),
            CommandEvent::Terminated => EventView::Terminated,
        }
    }
}

impl DeepView for CommandEvent {
    type V = EventView;

    open spec fn deep_view(&self) -> EventView {
        self@
    }
}

impl Clone for CommandEvent {
    fn clone(&self) -> (copy: CommandEvent)
        ensures
            copy@ == self@,
    {
        match self {
            CommandEvent::Stderr(text) => CommandEvent::Stderr(text.clone()),
            CommandEvent::Stdout(text) => CommandEvent::Stdout(text.clone()),
            CommandEvent::Error(message) => CommandEvent::Error(message.clone()),
            CommandEvent::Terminated => CommandEvent::Terminated,
        }
    }
}

impl EventView {
    /// The output event that carries `text` for `stream`.
    pub open spec fn line(stream: Stream, text: Seq<char>) -> EventView {
        match stream {
            Stream::Stdout => EventView::Stdout(text),
            Stream::Stderr => EventView::Stderr(text),
        }
    }

    /// Whether this is a line of output of `stream`.
    pub open spec fn is_line_of(self, stream: Stream) -> bool {
        match stream {
            Stream::Stdout => self is Stdout,
            Stream::Stderr => self is Stderr,
        }
    }

    /// The text an event carries; `Terminated` carries none.
    pub open spec fn text(self) -> Seq<char> {
        match self {
            EventView::Stderr(text) => text,
            EventView::Stdout(text) => text,
            EventView::Error(message) => message,
            EventView::Terminated => Seq::empty(),
        }
    }
}

impl CommandEvent {
    /// Wraps one captured line in the variant of the stream it was read from.
    /// The text is kept as it is, line terminator included.
    pub fn line(stream: Stream, text: String) -> (event: CommandEvent)
        ensures
            event@ == EventView::line(stream, text@),
        no_unwind
    {
        match stream {
            Stream::Stdout => CommandEvent::Stdout(text),
            Stream::Stderr => CommandEvent::Stderr(text),
        }
    }

    /// The stream whose output this event carries, if it carries any.
    pub fn stream(&self) -> (stream: Option<Stream>)
        ensures
            stream == match self@ {
                EventView::Stdout(_) => Some(Stream::Stdout),
                EventView::Stderr(_) => Some(Stream::Stderr),
                _ => None::<Stream>,
            },
        no_unwind
    {
        match self {
            CommandEvent::Stdout(_) => Some(Stream::Stdout),
            CommandEvent::Stderr(_) => Some(Stream::Stderr),
            _ => None,
        }
    }
}

} // verus!
