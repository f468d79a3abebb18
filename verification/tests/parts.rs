use sidecar::event::{CommandEvent, Stream};
use sidecar::reader::{LineReader, ReadOutcome};
use sidecar::watcher::{terminal_event, ProcessWatcher};
use sidecar::guard::ExitGuard;

#[test]
fn a_line_is_wrapped_in_the_variant_of_its_stream() {
    assert_eq!(
        CommandEvent::line(Stream::Stdout, "out\n".to_string()),
        CommandEvent::Stdout("out\n".to_string())
    );
    assert_eq!(
        CommandEvent::line(Stream::Stderr, "err\n".to_string()),
        CommandEvent::Stderr("err\n".to_string())
    );
}

#[test]
fn a_line_keeps_its_text_as_it_was_read() {
    for text in ["", "\n", "no terminator", "crlf\r\n", "  spaces  \n", "naïve ünïcödé\n"] {
        assert_eq!(
            CommandEvent::line(Stream::Stdout, text.to_string()),
            CommandEvent::Stdout(text.to_string())
        );
    }
}

#[test]
fn only_output_events_name_a_stream() {
    assert_eq!(CommandEvent::Stdout("a".to_string()).stream(), Some(Stream::Stdout));
    assert_eq!(CommandEvent::Stderr("a".to_string()).stream(), Some(Stream::Stderr));
    assert_eq!(CommandEvent::Error("a".to_string()).stream(), None);
    assert_eq!(CommandEvent::Terminated.stream(), None);
}

#[test]
fn a_clone_of_an_event_equals_the_event() {
    let events = vec![
        CommandEvent::Stderr("e\n".to_string()),
        CommandEvent::Stdout("o\n".to_string()),
        CommandEvent::Error("broken".to_string()),
        CommandEvent::Terminated,
    ];
    for event in events {
        assert_eq!(event.clone(), event);
    }
}

#[test]
fn a_read_of_zero_bytes_is_the_end_of_the_stream() {
    assert_eq!(ReadOutcome::classify(Ok(0), String::new()), ReadOutcome::EndOfStream);
    assert_eq!(ReadOutcome::classify(Ok(0), "stale".to_string()), ReadOutcome::EndOfStream);
}

#[test]
fn a_read_of_some_bytes_is_a_line() {
    assert_eq!(
        ReadOutcome::classify(Ok(2), "a\n".to_string()),
        ReadOutcome::Line("a\n".to_string())
    );
    assert_eq!(
        ReadOutcome::classify(Ok(1), "z".to_string()),
        ReadOutcome::Line("z".to_string())
    );
    assert_eq!(
        ReadOutcome::classify(Ok(usize::MAX), "big\n".to_string()),
        ReadOutcome::Line("big\n".to_string())
    );
}

#[test]
fn a_read_error_is_a_failure_with_its_description() {
    assert_eq!(
        ReadOutcome::classify(Err("broken pipe".to_string()), "half".to_string()),
        ReadOutcome::Failed("broken pipe".to_string())
    );
}

#[test]
fn a_reader_publishes_each_line_and_stays_open() {
    let mut reader = LineReader::new(Stream::Stdout);
    assert_eq!(reader.stream(), Stream::Stdout);
    assert!(reader.is_open());
    assert_eq!(
        reader.on_read(ReadOutcome::Line("one\n".to_string())),
        Some(CommandEvent::Stdout("one\n".to_string()))
    );
    assert!(reader.is_open());
    assert_eq!(
        reader.on_read(ReadOutcome::Line("two\n".to_string())),
        Some(CommandEvent::Stdout("two\n".to_string()))
    );
    assert!(reader.is_open());
}

#[test]
fn a_reader_of_stderr_publishes_stderr_events() {
    let mut reader = LineReader::new(Stream::Stderr);
    assert_eq!(reader.stream(), Stream::Stderr);
    assert_eq!(
        reader.on_read(ReadOutcome::Line("x\n".to_string())),
        Some(CommandEvent::Stderr("x\n".to_string()))
    );
}

#[test]
fn the_end_of_the_stream_closes_a_reader_silently() {
    let mut reader = LineReader::new(Stream::Stdout);
    assert_eq!(reader.on_read(ReadOutcome::EndOfStream), None);
    assert!(!reader.is_open());
    assert_eq!(reader.stream(), Stream::Stdout);
}

#[test]
fn a_failure_closes_a_reader_with_one_error_event() {
    let mut reader = LineReader::new(Stream::Stderr);
    assert_eq!(
        reader.on_read(ReadOutcome::Failed("input/output error".to_string())),
        Some(CommandEvent::Error("input/output error".to_string()))
    );
    assert!(!reader.is_open());
}

#[test]
fn a_closed_reader_publishes_nothing() {
    let mut reader = LineReader::new(Stream::Stdout);
    reader.on_read(ReadOutcome::EndOfStream);
    assert_eq!(reader.on_read(ReadOutcome::Line("late\n".to_string())), None);
    assert_eq!(reader.on_read(ReadOutcome::Failed("late".to_string())), None);
    assert_eq!(reader.on_read(ReadOutcome::EndOfStream), None);
    assert!(!reader.is_open());
}

#[test]
fn a_final_line_without_terminator_is_published() {
    let mut reader = LineReader::new(Stream::Stdout);
    let first = reader.on_read(ReadOutcome::classify(Ok(5), "full\n".to_string()));
    let last = reader.on_read(ReadOutcome::classify(Ok(4), "part".to_string()));
    let end = reader.on_read(ReadOutcome::classify(Ok(0), String::new()));
    assert_eq!(first, Some(CommandEvent::Stdout("full\n".to_string())));
    assert_eq!(last, Some(CommandEvent::Stdout("part".to_string())));
    assert_eq!(end, None);
    assert!(!reader.is_open());
}

#[test]
fn a_wait_that_succeeded_ends_in_terminated() {
    assert_eq!(terminal_event(Ok(())), CommandEvent::Terminated);
}

#[test]
fn a_wait_that_failed_ends_in_an_error_with_its_description() {
    assert_eq!(
        terminal_event(Err("no child process".to_string())),
        CommandEvent::Error("no child process".to_string())
    );
}

#[test]
fn a_watcher_hands_the_terminal_event_out_once() {
    let mut guard = ExitGuard::new();
    let mut watcher = ProcessWatcher::new();
    assert!(!watcher.has_exited());
    assert!(!watcher.is_done());
    assert_eq!(watcher.announce(&mut guard), None);
    assert!(!guard.is_writing());

    watcher.record_exit(Ok(()));
    assert!(watcher.has_exited());
    assert!(!watcher.is_done());

    assert_eq!(watcher.announce(&mut guard), Some(CommandEvent::Terminated));
    assert!(watcher.is_done());
    assert!(guard.is_writing());

    assert_eq!(watcher.announce(&mut guard), None);
    assert!(watcher.is_done());
    assert!(guard.is_writing());
}

#[test]
fn a_watcher_waits_for_the_readers_to_let_go_of_the_guard() {
    let mut guard = ExitGuard::new();
    assert!(guard.try_read());
    assert!(guard.try_read());
    let mut watcher = ProcessWatcher::new();
    watcher.record_exit(Err("lost".to_string()));

    assert_eq!(watcher.announce(&mut guard), None);
    assert!(guard.release_read());
    assert_eq!(watcher.announce(&mut guard), None);
    assert!(!watcher.is_done());
    assert_eq!(guard.reader_count(), 1);
    assert!(!guard.is_writing());

    assert!(guard.release_read());
    assert_eq!(watcher.announce(&mut guard), Some(CommandEvent::Error("lost".to_string())));
    assert!(watcher.is_done());
}

#[test]
fn a_watcher_goes_by_the_first_report_of_the_wait() {
    let mut guard = ExitGuard::new();
    let mut watcher = ProcessWatcher::new();
    watcher.record_exit(Err("first".to_string()));
    watcher.record_exit(Ok(()));
    watcher.record_exit(Err("third".to_string()));
    assert_eq!(watcher.announce(&mut guard), Some(CommandEvent::Error("first".to_string())));
    watcher.record_exit(Ok(()));
    assert!(watcher.is_done());
    assert_eq!(watcher.announce(&mut guard), None);
}

#[test]
fn a_watcher_does_not_take_a_guard_that_is_held_in_write_mode() {
    let mut guard = ExitGuard::new();
    assert!(guard.try_write());
    let mut watcher = ProcessWatcher::new();
    watcher.record_exit(Ok(()));
    assert_eq!(watcher.announce(&mut guard), None);
    assert!(!watcher.is_done());
    assert!(guard.release_write());
    assert_eq!(watcher.announce(&mut guard), Some(CommandEvent::Terminated));
}
