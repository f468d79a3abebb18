use sidecar::bus::publish;
use sidecar::event::{CommandEvent, Stream};
use sidecar::reader::ReadOutcome;
use sidecar::supervisor::{Signal, Supervisor};
use tokio::sync::broadcast::error::TryRecvError;
use tokio::sync::broadcast::{channel, Receiver};

fn drain(rx: &mut Receiver<CommandEvent>) -> Vec<CommandEvent> {
    let mut events = Vec::new();
    while let Ok(event) = rx.try_recv() {
        events.push(event);
    }
    events
}

fn line(stream: Stream, text: &str) -> Signal {
    Signal::Read(stream, ReadOutcome::Line(text.to_string()))
}

fn end(stream: Stream) -> Signal {
    Signal::Read(stream, ReadOutcome::EndOfStream)
}

#[test]
fn an_event_is_sent_to_the_receiver() {
    let (tx, mut rx) = channel::<CommandEvent>(8);
    let sent = publish(&tx, Some(CommandEvent::Stdout("a\n".to_string())));
    assert_eq!(sent, Ok(1));
    assert_eq!(rx.try_recv(), Ok(CommandEvent::Stdout("a\n".to_string())));
    assert_eq!(rx.try_recv(), Err(TryRecvError::Empty));
}

#[test]
fn an_event_is_sent_to_every_receiver() {
    let (tx, mut first) = channel::<CommandEvent>(8);
    let mut second = tx.subscribe();
    let mut third = tx.subscribe();
    assert_eq!(publish(&tx, Some(CommandEvent::Terminated)), Ok(3));
    assert_eq!(first.try_recv(), Ok(CommandEvent::Terminated));
    assert_eq!(second.try_recv(), Ok(CommandEvent::Terminated));
    assert_eq!(third.try_recv(), Ok(CommandEvent::Terminated));
}

#[test]
fn no_event_sends_nothing() {
    let (tx, mut rx) = channel::<CommandEvent>(8);
    assert_eq!(publish(&tx, None), Ok(0));
    assert_eq!(rx.try_recv(), Err(TryRecvError::Empty));
}

#[test]
fn an_event_without_a_receiver_comes_back() {
    let (tx, rx) = channel::<CommandEvent>(8);
    drop(rx);
    assert_eq!(
        publish(&tx, Some(CommandEvent::Error("lost".to_string()))),
        Err(CommandEvent::Error("lost".to_string()))
    );
    assert_eq!(publish(&tx, None), Ok(0));
}

#[test]
fn a_relayed_run_arrives_in_order_with_the_terminal_event_last() {
    let (tx, mut rx) = channel::<CommandEvent>(16);
    let mut supervisor = Supervisor::new();
    assert_eq!(supervisor.relay(&tx, line(Stream::Stdout, "a\n")), Ok(1));
    assert_eq!(supervisor.relay(&tx, Signal::Exited(Ok(()))), Ok(0));
    assert_eq!(supervisor.relay(&tx, Signal::Announce), Ok(0));
    assert_eq!(supervisor.relay(&tx, line(Stream::Stderr, "x\n")), Ok(1));
    assert_eq!(supervisor.relay(&tx, line(Stream::Stdout, "b\n")), Ok(1));
    assert_eq!(supervisor.relay(&tx, end(Stream::Stdout)), Ok(0));
    assert_eq!(supervisor.relay(&tx, Signal::Announce), Ok(0));
    assert!(!supervisor.is_terminated());
    assert_eq!(supervisor.relay(&tx, end(Stream::Stderr)), Ok(0));
    assert_eq!(supervisor.relay(&tx, Signal::Announce), Ok(1));
    assert!(supervisor.is_terminated());
    assert_eq!(supervisor.relay(&tx, Signal::Announce), Ok(0));

    assert_eq!(
        drain(&mut rx),
        vec![
            CommandEvent::Stdout("a\n".to_string()),
            CommandEvent::Stderr("x\n".to_string()),
            CommandEvent::Stdout("b\n".to_string()),
            CommandEvent::Terminated,
        ]
    );
}

#[test]
fn a_late_subscriber_sees_what_was_sent_after_it_came_and_the_terminal_event_last() {
    let (tx, mut early) = channel::<CommandEvent>(16);
    let mut supervisor = Supervisor::new();
    assert_eq!(supervisor.relay(&tx, line(Stream::Stdout, "a\n")), Ok(1));
    let mut late = tx.subscribe();
    assert_eq!(supervisor.relay(&tx, line(Stream::Stdout, "b\n")), Ok(2));
    assert_eq!(supervisor.relay(&tx, end(Stream::Stdout)), Ok(0));
    assert_eq!(supervisor.relay(&tx, end(Stream::Stderr)), Ok(0));
    assert_eq!(supervisor.relay(&tx, Signal::Exited(Err("gone".to_string()))), Ok(0));
    assert_eq!(supervisor.relay(&tx, Signal::Announce), Ok(2));

    assert_eq!(
        drain(&mut early),
        vec![
            CommandEvent::Stdout("a\n".to_string()),
            CommandEvent::Stdout("b\n".to_string()),
            CommandEvent::Error("gone".to_string()),
        ]
    );
    assert_eq!(
        drain(&mut late),
        vec![CommandEvent::Stdout("b\n".to_string()), CommandEvent::Error("gone".to_string())]
    );
}

#[test]
fn a_relay_without_a_receiver_hands_the_event_back_and_moves_on() {
    let (tx, rx) = channel::<CommandEvent>(16);
    drop(rx);
    let mut supervisor = Supervisor::new();
    assert_eq!(
        supervisor.relay(&tx, line(Stream::Stdout, "a\n")),
        Err(CommandEvent::Stdout("a\n".to_string()))
    );
    assert!(supervisor.is_reading(Stream::Stdout));
    assert_eq!(
        supervisor.relay(&tx, Signal::Read(Stream::Stdout, ReadOutcome::Failed("f".to_string()))),
        Err(CommandEvent::Error("f".to_string()))
    );
    assert!(!supervisor.is_reading(Stream::Stdout));
    assert_eq!(supervisor.relay(&tx, end(Stream::Stderr)), Ok(0));
    assert_eq!(supervisor.relay(&tx, Signal::Exited(Ok(()))), Ok(0));
    assert_eq!(supervisor.relay(&tx, Signal::Announce), Err(CommandEvent::Terminated));
    assert!(supervisor.is_terminated());
    assert_eq!(supervisor.relay(&tx, Signal::Announce), Ok(0));
}

#[test]
fn a_relay_sends_what_a_step_hands_out() {
    let signals = || {
        vec![
            line(Stream::Stderr, "x\n"),
            Signal::Read(Stream::Stderr, ReadOutcome::Failed("bad".to_string())),
            line(Stream::Stderr, "late\n"),
            Signal::Exited(Ok(())),
            Signal::Announce,
            end(Stream::Stdout),
            Signal::Announce,
            Signal::Announce,
        ]
    };
    let (tx, mut rx) = channel::<CommandEvent>(16);
    let mut relaying = Supervisor::new();
    for signal in signals() {
        assert!(relaying.relay(&tx, signal).is_ok());
    }
    let mut stepping = Supervisor::new();
    let mut handed_out = Vec::new();
    for signal in signals() {
        handed_out.extend(stepping.step(signal));
    }
    assert_eq!(drain(&mut rx), handed_out);
    assert_eq!(
        handed_out,
        vec![
            CommandEvent::Stderr("x\n".to_string()),
            CommandEvent::Error("bad".to_string()),
            CommandEvent::Terminated,
        ]
    );
}
