use papyrus::interface::{
    apply_event_to_buf, cursor_position, pat_match_escaped_keys, read_until_step, resolve_event,
    CItem, CompletionWriter, Event, EventStep, InputBuffer, Key, Signal,
};
use papyrus::writer::{OutputChange, Writer};

#[test]
fn test_input_movement() {
    let mut input = InputBuffer::new();

    "Hello, world!".chars().for_each(|c| input.insert(c));
    assert_eq!(&input.buffer(), "Hello, world!");
    assert_eq!(input.ch_pos(), 13);

    // can't go past end of buffer
    input.move_pos_right(1);
    assert_eq!(input.ch_pos(), 13);

    input.move_pos_left(1);
    assert_eq!(input.ch_pos(), 12);

    input.insert('?');
    assert_eq!(&input.buffer(), "Hello, world?!");
    assert_eq!(input.ch_pos(), 13);

    // can't go past start of buffer
    input.move_pos_left(14);
    assert_eq!(input.ch_pos(), 0);
}

#[test]
fn test_input_removing() {
    let mut input = InputBuffer::new();

    "Hello, world!".chars().for_each(|c| input.insert(c));

    input.delete();
    assert_eq!(&input.buffer(), "Hello, world!");
    assert_eq!(input.ch_pos(), 13);

    input.backspace();
    assert_eq!(&input.buffer(), "Hello, world");
    assert_eq!(input.ch_pos(), 12);

    input.move_pos_left(14);
    input.backspace();
    assert_eq!(&input.buffer(), "Hello, world");
    assert_eq!(input.ch_pos(), 0);

    input.delete();
    assert_eq!(&input.buffer(), "ello, world");
    assert_eq!(input.ch_pos(), 0);
}

#[test]
fn insert_str_splices_at_the_cursor() {
    let mut input = InputBuffer::new();
    input.insert_str("helld!");
    input.move_pos_left(3);
    input.insert_str("lo wor");
    assert_eq!(&input.buffer(), "hello world!");
    assert_eq!(input.ch_pos(), 9);

    input.truncate(5);
    assert_eq!(&input.buffer(), "hello");
    assert_eq!(input.ch_pos(), 5);

    input.clear();
    assert_eq!(&input.buffer(), "");
    assert_eq!(input.ch_len(), 0);
}

#[test]
fn events_drive_the_buffer() {
    let buf = InputBuffer::new();
    let (buf, chg) = apply_event_to_buf(buf, Event::Key(Key::Char('a')));
    assert!(chg);
    let (buf, chg) = apply_event_to_buf(buf, Event::Key(Key::Char('b')));
    assert!(chg);
    let (buf, chg) = apply_event_to_buf(buf, Event::Key(Key::Left));
    assert!(!chg);
    let (buf, chg) = apply_event_to_buf(buf, Event::Key(Key::Backspace));
    assert!(chg);
    let (buf, chg) = apply_event_to_buf(buf, Event::Key(Key::Char('c')));
    assert!(chg);
    let (buf, chg) = apply_event_to_buf(buf, Event::Key(Key::Delete));
    assert!(chg);
    assert_eq!(&buf.buffer(), "c");
    let (buf, chg) = apply_event_to_buf(buf, Event::Key(Key::Up));
    assert!(!chg);
    assert_eq!(&buf.buffer(), "c");
}

#[test]
fn escaped_keys_resolve_to_arrows() {
    assert_eq!(
        pat_match_escaped_keys(Event::Key(Key::Char('[')), Event::Key(Key::Char('A'))),
        Some(Event::Key(Key::Up))
    );
    assert_eq!(
        pat_match_escaped_keys(Event::Key(Key::Char('[')), Event::Key(Key::Char('D'))),
        Some(Event::Key(Key::Left))
    );
    assert_eq!(
        pat_match_escaped_keys(Event::Key(Key::Char('x')), Event::Key(Key::Char('A'))),
        None
    );

    let followers = Some((Event::Key(Key::Char('[')), Event::Key(Key::Char('B'))));
    assert_eq!(
        resolve_event(Event::Key(Key::Escape), followers),
        Event::Key(Key::Down)
    );
    assert_eq!(
        resolve_event(Event::Key(Key::Escape), None),
        Event::Key(Key::Escape)
    );
    assert_eq!(
        resolve_event(Event::Key(Key::Ctrl('c')), None),
        Event::Signal(Signal::Interrupt)
    );
    assert_eq!(
        resolve_event(Event::Key(Key::Char('q')), None),
        Event::Key(Key::Char('q'))
    );
}

#[test]
fn read_until_stops_on_stop_events() {
    let stops = vec![Event::Key(Key::Enter), Event::Signal(Signal::Interrupt)];
    let buf = InputBuffer::new();
    let buf = match read_until_step(buf, Event::Key(Key::Char('h')), &stops) {
        EventStep::Applied(b, chg) => {
            assert!(chg);
            b
        }
        EventStep::Stop(_) => panic!("plain characters must be applied"),
    };
    let buf = match read_until_step(buf, Event::Key(Key::Enter), &stops) {
        EventStep::Stop(b) => b,
        EventStep::Applied(_, _) => panic!("enter is a stop event"),
    };
    assert_eq!(&buf.buffer(), "h");
}

#[test]
fn cursor_wraps_on_line_width() {
    assert_eq!(cursor_position((5, 2), 10, 3), (8, 2));
    assert_eq!(cursor_position((5, 2), 10, 17), (2, 4));
    assert_eq!(cursor_position((0, 0), 80, 80), (0, 1));
    assert_eq!(cursor_position((79, 7), 80, 0), (79, 7));
}

#[test]
fn completions_cycle_and_splice() {
    let mut writer = CompletionWriter::new();
    assert!(!writer.is_same_input("aabcd"));
    writer.new_completions(vec![
        CItem { matchstr: "abcd".to_string(), input_chpos: 1 },
        CItem { matchstr: "axyz".to_string(), input_chpos: 1 },
    ]);

    let mut buf = InputBuffer::new();
    buf.insert_str("ax");
    let applied = writer.overwrite_completion(&mut buf);
    assert!(applied);
    assert_eq!(&buf.buffer(), "aabcd");
    assert!(writer.is_same_input("aabcd"));
    assert!(!writer.is_same_input("ax"));

    writer.next_completion();
    let applied = writer.overwrite_completion(&mut buf);
    assert!(applied);
    assert_eq!(&buf.buffer(), "aaxyz");

    // wraps around to the first completion
    writer.next_completion();
    let applied = writer.overwrite_completion(&mut buf);
    assert!(applied);
    assert_eq!(&buf.buffer(), "aabcd");
}

#[test]
fn empty_completions_change_nothing() {
    let mut writer = CompletionWriter::new();
    let mut buf = InputBuffer::new();
    buf.insert_str("text");
    assert!(!writer.overwrite_completion(&mut buf));
    assert_eq!(&buf.buffer(), "text");
}

#[test]
fn writer_models_the_console_region() {
    let mut w = Writer::new();
    assert_eq!(w.write("count: 1"), 8);
    assert_eq!(w.lines(), &vec!["count: 1".to_string()]);

    w.overwrite_current_console_line("count: 2");
    assert_eq!(w.lines(), &vec!["count: 2".to_string()]);

    w.new_line();
    w.write("done");
    assert_eq!(w.lines(), &vec!["count: 2".to_string(), "done".to_string()]);

    w.write_output_chg(OutputChange::CurrentLine("done.".to_string()));
    assert_eq!(w.lines(), &vec!["count: 2".to_string(), "done.".to_string()]);

    w.write_output_chg(OutputChange::NewLine);
    assert_eq!(
        w.lines(),
        &vec!["count: 2".to_string(), "done.".to_string(), String::new()]
    );
}

#[test]
fn consumed_events_compose_in_order() {
    let stops = vec![Event::Key(Key::Enter)];
    let buf = InputBuffer::new();
    let buf = match read_until_step(buf, Event::Key(Key::Char('5')), &stops) {
        EventStep::Applied(b, _) => b,
        EventStep::Stop(_) => panic!("'5' is no stop event"),
    };
    let buf = match read_until_step(buf, Event::Key(Key::Char('x')), &stops) {
        EventStep::Applied(b, _) => b,
        EventStep::Stop(_) => panic!("'x' is no stop event"),
    };
    // The earlier edit persists under the later one: the buffer is the fold
    // of the applied events.
    assert_eq!(&buf.buffer(), "5x");
    match read_until_step(buf, Event::Key(Key::Enter), &stops) {
        EventStep::Stop(b) => assert_eq!(&b.buffer(), "5x"),
        EventStep::Applied(_, _) => panic!("enter is a stop event"),
    }
}
