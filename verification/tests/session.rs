use hecto::{
    dispatch, Action, Command, Direction, Document, Editor, Event, Key, Position, Row,
    ScreenOffset, Terminal,
};

const FAREWELL_FRAME: &str = "\x1b[?25l\x1b[2J\x1b[1;1H\x1b[2JKeep planting.\r\n\x1b[?25h";

fn editor_on(lines: &[&str], width: u16, height: u16) -> Editor {
    let rows = lines.iter().map(|line| Row::new(line)).collect();
    Editor::default(Document::new(rows), Terminal::default((width, height + 2)))
}

#[test]
fn quit_key_is_ctrl_q() {
    assert_eq!(dispatch(Key::Ctrl('q')), Command::Quit);
    assert_eq!(dispatch(Key::Ctrl('Q')), Command::Ignore);
    assert_eq!(dispatch(Key::Ctrl('c')), Command::Ignore);
    assert_eq!(dispatch(Key::Char('q')), Command::Ignore);
    assert_eq!(dispatch(Key::Alt('q')), Command::Ignore);
}

#[test]
fn movement_keys_map_to_their_directions() {
    assert_eq!(dispatch(Key::Up), Command::Move(Direction::Up));
    assert_eq!(dispatch(Key::Down), Command::Move(Direction::Down));
    assert_eq!(dispatch(Key::Left), Command::Move(Direction::Left));
    assert_eq!(dispatch(Key::Right), Command::Move(Direction::Right));
    assert_eq!(dispatch(Key::Home), Command::Move(Direction::Home));
    assert_eq!(dispatch(Key::End), Command::Move(Direction::End));
    assert_eq!(dispatch(Key::PageUp), Command::Move(Direction::PageUp));
    assert_eq!(dispatch(Key::PageDown), Command::Move(Direction::PageDown));
}

#[test]
fn other_keys_are_ignored() {
    for key in [
        Key::Backspace,
        Key::BackTab,
        Key::Delete,
        Key::Insert,
        Key::F(5),
        Key::Char('a'),
        Key::Char('\n'),
        Key::Alt('x'),
        Key::Null,
        Key::Esc,
    ] {
        assert_eq!(dispatch(key), Command::Ignore);
    }
}

#[test]
fn quit_key_sets_should_quit() {
    let mut editor = editor_on(&["abc"], 80, 21);
    assert!(!editor.should_quit());
    editor.process_keypress(Key::Ctrl('q'));
    assert!(editor.should_quit());
    assert_eq!(editor.cursor_position(), Position { x: 0, y: 0 });
}

#[test]
fn should_quit_is_never_reset() {
    let mut editor = editor_on(&["abc", "de"], 80, 21);
    editor.process_keypress(Key::Ctrl('q'));
    for key in [Key::Down, Key::Char('a'), Key::Ctrl('q'), Key::Esc, Key::Right] {
        editor.process_keypress(key);
        assert!(editor.should_quit());
    }
}

#[test]
fn redraw_after_quit_shows_the_farewell() {
    let mut editor = editor_on(&["abc", "de"], 80, 21);
    editor.process_keypress(Key::Ctrl('q'));
    assert_eq!(editor.refresh_screen(), FAREWELL_FRAME);
}

#[test]
fn run_starts_with_a_frame_and_asks_for_a_key() {
    let mut editor = editor_on(&["abc"], 80, 1);
    match editor.run(Event::Started) {
        Action::Draw(frame) => {
            assert_eq!(frame, "\x1b[?25l\x1b[2J\x1b[1;1H\x1b[2Kabc\r\n\x1b[1;1H\x1b[?25h");
        }
        _ => panic!("a running session draws"),
    }
    assert_eq!(editor.cursor_position(), Position { x: 0, y: 0 });
    assert!(!editor.should_quit());
}

#[test]
fn run_carries_out_a_key_before_it_draws() {
    let mut editor = editor_on(&["abc"], 80, 1);
    match editor.run(Event::Key(Key::Right)) {
        Action::Draw(frame) => {
            assert_eq!(frame, "\x1b[?25l\x1b[2J\x1b[1;1H\x1b[2Kabc\r\n\x1b[1;2H\x1b[?25h");
        }
        _ => panic!("a running session draws"),
    }
    assert_eq!(editor.cursor_position(), Position { x: 1, y: 0 });
}

#[test]
fn run_exits_with_the_farewell_after_the_quit_key() {
    let mut editor = editor_on(&["abc"], 80, 21);
    match editor.run(Event::Started) {
        Action::Draw(_) => {}
        _ => panic!("a running session draws"),
    }
    match editor.run(Event::Key(Key::Ctrl('q'))) {
        Action::Exit(frame) => assert_eq!(frame, FAREWELL_FRAME),
        _ => panic!("the quit key ends the session"),
    }
    assert!(editor.should_quit());
}

#[test]
fn run_ignores_keys_once_quitting() {
    let mut editor = editor_on(&["abc", "de"], 80, 21);
    editor.run(Event::Key(Key::Right));
    editor.run(Event::Key(Key::Ctrl('q')));
    for key in [Key::Down, Key::Right, Key::End, Key::Ctrl('q')] {
        match editor.run(Event::Key(key)) {
            Action::Exit(frame) => assert_eq!(frame, FAREWELL_FRAME),
            _ => panic!("a quitting session only exits"),
        }
        assert_eq!(editor.cursor_position(), Position { x: 1, y: 0 });
        assert_eq!(editor.offset(), ScreenOffset { x: 0, y: 0 });
        assert!(editor.should_quit());
    }
}

#[test]
fn run_aborts_on_a_fault() {
    let mut editor = editor_on(&["abc"], 80, 21);
    editor.run(Event::Key(Key::Right));
    match editor.run(Event::Fault(String::from("Kind(BrokenPipe)"))) {
        Action::Abort(fatal) => {
            assert_eq!(fatal.cleanup, "\x1b[2J");
            assert_eq!(fatal.message, "Error: Kind(BrokenPipe)\r");
        }
        _ => panic!("a fault ends the session"),
    }
    assert_eq!(editor.cursor_position(), Position { x: 1, y: 0 });
    assert!(!editor.should_quit());
}

#[test]
fn run_aborts_on_a_fault_while_quitting() {
    let mut editor = editor_on(&["abc"], 80, 21);
    editor.run(Event::Key(Key::Ctrl('q')));
    match editor.run(Event::Fault(String::from("Kind(Other)"))) {
        Action::Abort(fatal) => assert_eq!(fatal.message, "Error: Kind(Other)\r"),
        _ => panic!("a fault ends the session"),
    }
    assert!(editor.should_quit());
}

#[test]
fn run_over_a_whole_session() {
    let mut editor = editor_on(&["abc", "de"], 80, 21);
    let keys = [Key::Down, Key::End, Key::Char('x'), Key::Ctrl('q'), Key::Up];
    let mut event = Event::Started;
    let mut frames = 0;
    let mut read = 0;
    loop {
        match editor.run(event) {
            Action::Draw(_) => {
                frames += 1;
                event = Event::Key(keys[read]);
                read += 1;
            }
            Action::Exit(frame) => {
                frames += 1;
                assert_eq!(frame, FAREWELL_FRAME);
                break;
            }
            Action::Abort(_) => panic!("nothing failed"),
        }
    }
    assert_eq!(read, 4);
    assert_eq!(frames, 5);
    assert_eq!(editor.cursor_position(), Position { x: 2, y: 1 });
}
