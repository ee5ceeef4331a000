use hecto::editor::Editor;
use hecto::editorcommand::{
    Direction, EditorCommand, InputEvent, KeyCode, KeyPress, Modifiers,
};
use hecto::screen::Size;
use hecto::view::Location;

fn press(code: KeyCode, modifiers: Modifiers) -> InputEvent {
    InputEvent::Key(KeyPress { code, modifiers, is_press: true })
}

#[test]
fn control_c_maps_to_quit() {
    let event = press(KeyCode::Char('c'), Modifiers::ControlOnly);
    assert_eq!(EditorCommand::try_from(event), Ok(EditorCommand::Quit));
}

#[test]
fn plain_and_shifted_characters_map_to_insert() {
    let plain = press(KeyCode::Char('h'), Modifiers::NoMods);
    assert_eq!(EditorCommand::try_from(plain), Ok(EditorCommand::Insert('h')));
    let shifted = press(KeyCode::Char('H'), Modifiers::ShiftOnly);
    assert_eq!(EditorCommand::try_from(shifted), Ok(EditorCommand::Insert('H')));
}

#[test]
fn navigation_keys_map_to_moves_whatever_the_modifiers() {
    let cases = [
        (KeyCode::Up, Direction::Up),
        (KeyCode::Down, Direction::Down),
        (KeyCode::Left, Direction::Left),
        (KeyCode::Right, Direction::Right),
        (KeyCode::Home, Direction::Home),
        (KeyCode::End, Direction::End),
        (KeyCode::PageUp, Direction::PageUp),
        (KeyCode::PageDown, Direction::PageDown),
    ];
    for (code, direction) in cases {
        assert_eq!(
            EditorCommand::try_from(press(code, Modifiers::OtherMods)),
            Ok(EditorCommand::Move(direction))
        );
    }
}

#[test]
fn resize_event_maps_to_resize_command() {
    let event = InputEvent::WindowResize(80, 24);
    assert_eq!(
        EditorCommand::try_from(event),
        Ok(EditorCommand::Resize(Size { height: 24, width: 80 }))
    );
}

#[test]
fn unsupported_events_are_handed_back() {
    let modified = press(KeyCode::Char('x'), Modifiers::OtherMods);
    assert_eq!(EditorCommand::try_from(modified), Err(modified));
    let control_other = press(KeyCode::Char('q'), Modifiers::ControlOnly);
    assert_eq!(EditorCommand::try_from(control_other), Err(control_other));
    let other_key = press(KeyCode::OtherKey, Modifiers::NoMods);
    assert_eq!(EditorCommand::try_from(other_key), Err(other_key));
    assert_eq!(
        EditorCommand::try_from(InputEvent::OtherEvent),
        Err(InputEvent::OtherEvent)
    );
}

#[test]
fn only_presses_and_resizes_are_processed() {
    let release = InputEvent::Key(KeyPress {
        code: KeyCode::Char('a'),
        modifiers: Modifiers::NoMods,
        is_press: false,
    });
    assert!(!release.should_process());
    assert!(press(KeyCode::Char('a'), Modifiers::NoMods).should_process());
    assert!(InputEvent::WindowResize(1, 1).should_process());
    assert!(!InputEvent::OtherEvent.should_process());
}

#[test]
fn control_c_event_raises_the_quit_flag() {
    let mut editor = Editor::new(Size { height: 5, width: 5 });
    assert!(!editor.should_quit);
    editor.evaluate_event(press(KeyCode::Char('c'), Modifiers::ControlOnly));
    assert!(editor.should_quit);
}

#[test]
fn typing_reaches_the_buffer() {
    let mut editor = Editor::new(Size { height: 5, width: 5 });
    editor.evaluate_event(press(KeyCode::Char('h'), Modifiers::NoMods));
    editor.evaluate_event(press(KeyCode::Char('i'), Modifiers::NoMods));
    assert_eq!(editor.view.buffer.lines[0].to_text(), "hi");
    assert_eq!(
        editor.view.text_location,
        Location { grapheme_index: 2, line_index: 0 }
    );
    assert!(!editor.should_quit);
}

#[test]
fn ignored_events_change_nothing() {
    let mut editor = Editor::new(Size { height: 5, width: 5 });
    editor.evaluate_event(press(KeyCode::Char('h'), Modifiers::NoMods));
    let release = InputEvent::Key(KeyPress {
        code: KeyCode::Char('x'),
        modifiers: Modifiers::NoMods,
        is_press: false,
    });
    editor.evaluate_event(release);
    editor.evaluate_event(InputEvent::OtherEvent);
    editor.evaluate_event(press(KeyCode::Char('y'), Modifiers::OtherMods));
    assert_eq!(editor.view.buffer.lines[0].to_text(), "h");
    assert!(!editor.should_quit);
}

#[test]
fn resize_event_resizes_the_view() {
    let mut editor = Editor::new(Size { height: 5, width: 5 });
    editor.evaluate_event(InputEvent::WindowResize(7, 3));
    assert_eq!(editor.view.size, Size { height: 3, width: 7 });
}
