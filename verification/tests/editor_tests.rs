use klh::buffer::{Buffer, LineBuffer};
use klh::client_menu::{action_for_entry, action_for_line, ClientAction};
use klh::command_executor::{char_to_string, execute_command_v2};
use klh::content_editor::command_executor::{can_execute, execute_command};
use klh::content_editor::display::{calculate_cursor, try_calculate_cursor};
use klh::content_editor::input_handler::process_input_v2 as content_process_input;
use klh::content_editor::models::{
    Command as ContentCommand, ContentBuffer, ControlType as ContentControl,
    InputType as ContentInput,
};
use klh::display::screen_position;
use klh::input_handler::{input_for_key, is_insertable, process_input_v2, saves, TerminalKey};
use klh::content_editor::input_handler::input_for_key as content_input_for_key;
use klh::buffer::Coordinate;
use klh::models::{Command, ControlType, InputType};
use klh::session::session_state::SessionState;
use klh::session::{Session, SessionStep};
use klh::startup::StartupArgs;
use klh::text_util::{chars_equal, chars_of, str_equals, string_from_chars, string_without_nuls};
use klh::ui::{to_outbound_message, BufferInputState, KeyCode, Modifiers, UiEvent, UiMessage};

fn content(text: &str, point: i64) -> ContentBuffer {
    ContentBuffer { content: text.to_string(), point }
}

#[test]
fn content_insert_at_end_appends_and_advances() {
    let mut b = content("ab", 2);
    assert_eq!(execute_command(&ContentCommand::BufferInsert('c'), &mut b), None);
    assert_eq!(b.content, "abc");
    assert_eq!(b.point, 3);
}

#[test]
fn content_insert_in_the_middle() {
    let mut b = content("ac", 1);
    assert_eq!(execute_command(&ContentCommand::BufferInsert('b'), &mut b), None);
    assert_eq!(b.content, "abc");
    assert_eq!(b.point, 2);
}

#[test]
fn content_delete_at_point_and_past_the_end() {
    let mut b = content("abc", 1);
    execute_command(&ContentCommand::BufferDelete, &mut b);
    assert_eq!(b.content, "ac");
    assert_eq!(b.point, 0);

    let mut b = content("abc", 3);
    execute_command(&ContentCommand::BufferDelete, &mut b);
    assert_eq!(b.content, "ab");
    assert_eq!(b.point, 2);

    let mut b = content("abc", 0);
    execute_command(&ContentCommand::BufferDelete, &mut b);
    assert_eq!(b.content, "bc");
    assert_eq!(b.point, 0);
}

#[test]
fn content_point_moves_are_clamped() {
    let mut b = content("ab", 1);
    execute_command(&ContentCommand::AdvancePoint, &mut b);
    assert_eq!(b.point, 2);
    execute_command(&ContentCommand::AdvancePoint, &mut b);
    assert_eq!(b.point, 2);
    execute_command(&ContentCommand::RetreatPoint, &mut b);
    execute_command(&ContentCommand::RetreatPoint, &mut b);
    execute_command(&ContentCommand::RetreatPoint, &mut b);
    assert_eq!(b.point, 0);
    assert_eq!(b.content, "ab");
}

#[test]
fn content_quit_returns_zero_and_default_does_nothing() {
    let mut b = content("ab", 1);
    assert_eq!(execute_command(&ContentCommand::Quit, &mut b), Some(0));
    assert_eq!(execute_command(&ContentCommand::Default, &mut b), None);
    assert_eq!(b.content, "ab");
    assert_eq!(b.point, 1);
}

#[test]
fn cursor_of_a_single_line() {
    assert_eq!(calculate_cursor(&content("", 0)), (1, 1));
    assert_eq!(calculate_cursor(&content("abc", 2)), (3, 1));
}

#[test]
fn cursor_after_newlines() {
    assert_eq!(calculate_cursor(&content("ab\ncd\nef", 7)), (2, 3));
    assert_eq!(calculate_cursor(&content("ab\n", 3)), (1, 2));
    assert_eq!(calculate_cursor(&content("ab\ncd", 2)), (3, 1));
}

#[test]
fn content_input_bindings() {
    let cases = vec![
        (ContentInput::Insert('a'), ContentCommand::BufferInsert('a')),
        (ContentInput::Insert('\n'), ContentCommand::BufferInsert('\n')),
        (ContentInput::Insert('\''), ContentCommand::Default),
        (ContentInput::Insert('\t'), ContentCommand::Default),
        (ContentInput::Control(ContentControl::Escape), ContentCommand::Quit),
        (ContentInput::Control(ContentControl::Backspace), ContentCommand::BufferDelete),
        (ContentInput::Control(ContentControl::CursorForward), ContentCommand::AdvancePoint),
        (ContentInput::Control(ContentControl::CursorBack), ContentCommand::RetreatPoint),
        (ContentInput::Control(ContentControl::CursorUp), ContentCommand::Default),
        (ContentInput::Waiting, ContentCommand::Default),
    ];
    for (input, expected) in cases {
        assert_eq!(content_process_input(input).unwrap(), expected);
    }
}

#[test]
fn editor_input_bindings() {
    let cases = vec![
        (InputType::Insert('z'), Command::BufferInsert('z')),
        (InputType::Insert('\''), Command::BufferInsert('\'')),
        (InputType::Insert('\n'), Command::BufferInsert('\n')),
        (InputType::Insert('é'), Command::Default),
        (InputType::Control(ControlType::Escape), Command::Quit),
        (InputType::Control(ControlType::Backspace), Command::BufferDelete),
        (InputType::Control(ControlType::ArrowRight), Command::AdvancePoint),
        (InputType::Control(ControlType::ArrowLeft), Command::RetreatPoint),
        (InputType::Control(ControlType::Save), Command::Save),
        (InputType::Control(ControlType::CursorDown), Command::Default),
        (InputType::Waiting, Command::Default),
    ];
    for (input, expected) in cases {
        assert_eq!(process_input_v2(input).unwrap(), expected);
    }
    assert!(is_insertable('~'));
    assert!(!is_insertable('\u{7f}'));
}

#[test]
fn executing_commands_on_a_line_buffer() {
    let mut b = LineBuffer::new();
    assert_eq!(execute_command_v2(&Command::BufferInsert('h'), &mut b), None);
    assert_eq!(execute_command_v2(&Command::BufferInsert('i'), &mut b), None);
    assert_eq!(b.get_chars().unwrap(), "hi");
    execute_command_v2(&Command::RetreatPoint, &mut b);
    assert_eq!(b.get_current_location().unwrap().as_tuple(), (1, 0));
    execute_command_v2(&Command::AdvancePoint, &mut b);
    assert_eq!(b.get_current_location().unwrap().as_tuple(), (2, 0));
    execute_command_v2(&Command::BufferDelete, &mut b);
    assert_eq!(b.get_chars().unwrap(), "h");
    execute_command_v2(&Command::Save, &mut b);
    assert_eq!(b.get_chars().unwrap(), "h");
    assert_eq!(execute_command_v2(&Command::Quit, &mut b), Some(0));
}

#[test]
fn char_to_string_gives_one_character() {
    assert_eq!(char_to_string('x'), "x");
    assert_eq!(char_to_string('\n'), "\n");
}

#[test]
fn session_goes_through_its_lifecycle() {
    let mut s = Session::new(StartupArgs::from_arg(Some("notes.txt".to_string())));
    assert_eq!(s.state(), SessionState::New);
    assert_eq!(s.next_step(), SessionStep::Init);
    assert_eq!(s.init_args().file_name(), "notes.txt");
    assert_eq!(s.current_chars(), Err("No"));
    assert_eq!(s.await_user(InputType::Insert('a')), Err("No"));
    assert!(s.init(LineBuffer::new()).is_ok());
    assert_eq!(s.state(), SessionState::PostInit);
    assert_eq!(s.next_step(), SessionStep::AddHooks);
    assert!(s.add_hooks().is_ok());
    assert_eq!(s.state(), SessionState::PostHooks);
    assert_eq!(s.next_step(), SessionStep::LoadConfig);
    assert!(s.load_config().is_ok());
    assert_eq!(s.state(), SessionState::UserReady);
    assert_eq!(s.next_step(), SessionStep::AwaitUser);
    assert!(s.await_user(InputType::Insert('o')).is_ok());
    assert!(s.await_user(InputType::Insert('k')).is_ok());
    assert_eq!(s.current_chars().unwrap(), "ok");
    assert_eq!(s.state(), SessionState::UserReady);
    assert!(s.await_user(InputType::Control(ControlType::Escape)).is_ok());
    assert_eq!(s.state(), SessionState::TearDownReady);
    assert_eq!(s.next_step(), SessionStep::TearDown);
    assert!(s.tear_down().is_ok());
    assert_eq!(s.state(), SessionState::PostTearDown);
    assert_eq!(s.next_step(), SessionStep::Stop);
}

#[test]
fn startup_args_name_a_file_only_when_given_one() {
    assert_eq!(StartupArgs::new().get_file_name(), None);
    assert_eq!(StartupArgs::from_arg(None).get_file_name(), None);
    assert_eq!(StartupArgs::from_arg(Some(String::new())).get_file_name(), None);
    assert_eq!(StartupArgs::from_arg(Some("a.rs".to_string())).get_file_name(), Some("a.rs"));
    let s = Session::new(StartupArgs::new());
    assert_eq!(s.init_args().file_name(), "");
}

fn no_modifiers() -> Modifiers {
    Modifiers { shift: false, control: false, alt: false, logo: false }
}

#[test]
fn ui_events_become_inputs() {
    let ctrl = Modifiers { control: true, ..no_modifiers() };
    assert!(matches!(
        to_outbound_message(UiEvent::CharacterReceived('q'), no_modifiers()),
        Some(UiMessage::Outbound(InputType::Insert('q')))
    ));
    assert!(matches!(
        to_outbound_message(UiEvent::KeyPressed(KeyCode::S), ctrl),
        Some(UiMessage::Outbound(InputType::Control(ControlType::Save)))
    ));
    assert!(to_outbound_message(UiEvent::CharacterReceived('s'), ctrl).is_none());
    assert!(to_outbound_message(UiEvent::KeyPressed(KeyCode::S), no_modifiers()).is_none());
    assert!(to_outbound_message(UiEvent::Other, no_modifiers()).is_none());
}

#[test]
fn input_widget_remembers_modifiers() {
    let ctrl = Modifiers { control: true, ..no_modifiers() };
    let mut state = BufferInputState::new();
    assert!(state.on_event(UiEvent::ModifiersChanged(ctrl)).is_none());
    assert_eq!(state.modifiers, ctrl);
    assert!(matches!(
        state.on_event(UiEvent::KeyPressed(KeyCode::S)),
        Some(UiMessage::Outbound(InputType::Control(ControlType::Save)))
    ));
    assert!(state.on_event(UiEvent::ModifiersChanged(no_modifiers())).is_none());
    assert!(matches!(
        state.on_event(UiEvent::CharacterReceived('x')),
        Some(UiMessage::Outbound(InputType::Insert('x')))
    ));
}

#[test]
fn client_menu_entries() {
    assert_eq!(action_for_entry("bad_query"), ClientAction::BadQuery);
    assert_eq!(action_for_entry("bad_command"), ClientAction::BadCommand);
    assert_eq!(action_for_entry("dl"), ClientAction::LogEvent);
    assert_eq!(action_for_entry("db"), ClientAction::SlowBomb);
    assert_eq!(action_for_entry("bc"), ClientAction::CreateBuffer);
    assert_eq!(action_for_entry("bl"), ClientAction::ListBuffers);
    assert_eq!(action_for_entry("wc"), ClientAction::CreateWindow);
    assert_eq!(action_for_entry("wl"), ClientAction::ListWindows);
    assert_eq!(action_for_entry("e"), ClientAction::Exit);
    assert_eq!(action_for_entry("x"), ClientAction::Unrecognized);
    assert_eq!(action_for_entry(" e"), ClientAction::Unrecognized);
}

#[test]
fn client_menu_lines_are_trimmed() {
    assert_eq!(action_for_line("  bl\n"), ClientAction::ListBuffers);
    assert_eq!(action_for_line("e\r\n"), ClientAction::Exit);
    assert_eq!(action_for_line("\n"), ClientAction::Unrecognized);
}

#[test]
fn text_helpers() {
    assert_eq!(chars_of("héllo"), vec!['h', 'é', 'l', 'l', 'o']);
    assert_eq!(string_from_chars(&vec!['a', 'b']), "ab");
    assert_eq!(char_to_string('é'), "é");
    assert_eq!(string_without_nuls("a\0b\0\0"), "ab");
    assert!(chars_equal(&vec!['a'], &vec!['a']));
    assert!(!chars_equal(&vec!['a'], &vec!['a', 'b']));
    assert!(str_equals("abc", "abc"));
    assert!(!str_equals("abc", "abd"));
    let mut b = content("aéc", 1);
    execute_command(&ContentCommand::BufferInsert('b'), &mut b);
    assert_eq!(b.content, "abéc");
    let mut b = content("aéc", 1);
    execute_command(&ContentCommand::BufferDelete, &mut b);
    assert_eq!(b.content, "ac");
}

#[test]
fn cursor_is_refused_where_it_cannot_be_computed() {
    assert_eq!(try_calculate_cursor(&content("ab\ncd", 4)), Some((2, 2)));
    assert_eq!(try_calculate_cursor(&content("ab", -1)), None);
    assert_eq!(try_calculate_cursor(&content("ab", 3)), None);
    assert_eq!(try_calculate_cursor(&content("é", 1)), None);
    assert_eq!(try_calculate_cursor(&content("é", 2)), Some((3, 1)));
}

#[test]
fn session_tells_which_inputs_an_empty_buffer_takes() {
    let mut s = Session::new(StartupArgs::new());
    assert!(s.input_allowed(&InputType::Insert('\n')));
    s.init(LineBuffer::new()).unwrap();
    assert!(!s.input_allowed(&InputType::Insert('\n')));
    assert!(!s.input_allowed(&InputType::Control(ControlType::Backspace)));
    assert!(!s.input_allowed(&InputType::Control(ControlType::ArrowRight)));
    assert!(s.input_allowed(&InputType::Control(ControlType::ArrowLeft)));
    assert!(s.input_allowed(&InputType::Insert('a')));
    s.await_user(InputType::Insert('a')).unwrap();
    assert!(s.input_allowed(&InputType::Insert('\n')));
    assert!(s.input_allowed(&InputType::Control(ControlType::Backspace)));
}

#[test]
fn terminal_keys_become_inputs() {
    assert_eq!(input_for_key(TerminalKey::Backspace), InputType::Control(ControlType::Backspace));
    assert_eq!(input_for_key(TerminalKey::Up), InputType::Control(ControlType::CursorUp));
    assert_eq!(input_for_key(TerminalKey::Down), InputType::Control(ControlType::CursorDown));
    assert_eq!(input_for_key(TerminalKey::Left), InputType::Control(ControlType::ArrowLeft));
    assert_eq!(input_for_key(TerminalKey::Right), InputType::Control(ControlType::ArrowRight));
    assert_eq!(input_for_key(TerminalKey::Esc), InputType::Control(ControlType::Escape));
    assert_eq!(input_for_key(TerminalKey::Char('q')), InputType::Insert('q'));
    assert_eq!(input_for_key(TerminalKey::Ctrl('s')), InputType::Control(ControlType::Save));
    assert_eq!(input_for_key(TerminalKey::Ctrl('x')), InputType::Waiting);
    assert_eq!(input_for_key(TerminalKey::Other), InputType::Waiting);
}

#[test]
fn terminal_keys_become_content_editor_inputs() {
    assert_eq!(
        content_input_for_key(TerminalKey::Left),
        ContentInput::Control(ContentControl::CursorBack)
    );
    assert_eq!(
        content_input_for_key(TerminalKey::Right),
        ContentInput::Control(ContentControl::CursorForward)
    );
    assert_eq!(content_input_for_key(TerminalKey::Char('z')), ContentInput::Insert('z'));
    assert_eq!(content_input_for_key(TerminalKey::Ctrl('s')), ContentInput::Waiting);
    assert_eq!(
        content_input_for_key(TerminalKey::Esc),
        ContentInput::Control(ContentControl::Escape)
    );
}

#[test]
fn screen_positions_are_one_based() {
    assert_eq!(screen_position(Coordinate { offset: 0, line: 0 }), Some((1, 1)));
    assert_eq!(screen_position(Coordinate { offset: 4, line: 2 }), Some((5, 3)));
    assert_eq!(screen_position(Coordinate { offset: 65534, line: 0 }), Some((65535, 1)));
    assert_eq!(screen_position(Coordinate { offset: 65535, line: 0 }), None);
    assert_eq!(screen_position(Coordinate { offset: 0, line: 70000 }), None);
}

#[test]
fn ascii_commands_act_on_characters() {
    let mut b = content("abc", 3);
    execute_command(&ContentCommand::BufferDelete, &mut b);
    assert_eq!(b.content, "ab");
    assert_eq!(b.point, 2);
    let mut b = content("abc", 1);
    execute_command(&ContentCommand::BufferInsert('x'), &mut b);
    assert_eq!(b.content, "axbc");
    assert_eq!(b.point, 2);
}

#[test]
fn menu_lines_with_unicode_white_space_are_trimmed() {
    assert_eq!(action_for_line("\u{3000}wc\u{a0}"), ClientAction::CreateWindow);
    assert_eq!(action_for_line("\tdl \r\n"), ClientAction::LogEvent);
    assert_eq!(action_for_line("b c"), ClientAction::Unrecognized);
}

#[test]
fn commands_that_would_fail_are_refused_beforehand() {
    assert!(can_execute(&ContentCommand::BufferInsert('x'), &content("ab", 2)));
    assert!(!can_execute(&ContentCommand::BufferInsert('x'), &content("ab", 3)));
    assert!(!can_execute(&ContentCommand::BufferInsert('x'), &content("ab", -1)));
    assert!(!can_execute(&ContentCommand::BufferInsert('x'), &content("é", 1)));
    assert!(can_execute(&ContentCommand::BufferDelete, &content("ab", 5)));
    assert!(!can_execute(&ContentCommand::BufferDelete, &content("", 0)));
    assert!(!can_execute(&ContentCommand::BufferDelete, &content("ab", -1)));
    assert!(!can_execute(&ContentCommand::BufferDelete, &content("aé", 5)));
    assert!(can_execute(&ContentCommand::BufferDelete, &content("éa", 5)));
    assert!(!can_execute(&ContentCommand::AdvancePoint, &content("", i64::MAX)));
    assert!(!can_execute(&ContentCommand::RetreatPoint, &content("", i64::MIN)));
    assert!(can_execute(&ContentCommand::Quit, &content("", -7)));
}

#[test]
fn only_the_save_control_saves() {
    assert!(saves(&InputType::Control(ControlType::Save)));
    assert!(!saves(&InputType::Insert('s')));
    assert!(!saves(&InputType::Control(ControlType::Escape)));
}
