use klh::klh_core::config::{CorePlugins, KlhConfig};
use klh::klh_core::event::command::Command as CoreCommand;
use klh::klh_core::event::{BetterCommand, EventMessage, EventType};
use klh::klh_core::klh::core_plugins_to_register;
use klh::klh_core::messaging::message_type::{ids_equal, id_from_str, MESSAGE_TYPE_ID_MAX_LENGTH};
use klh::klh_core::messaging::{MessageError, MessageType, MessageTypeError, OneTime};
use klh::klh_core::plugin::PluginRegistrar;
use klh::klh_core::plugin::plugin_registrar::same_message_type;
use klh::klh_core::plugins::buffers::models::{
    AppendStringToBufferRequest, BufferContent, CreateBufferRequest, GetBufferRequest,
};
use klh::klh_core::plugins::buffers::{Buffers, BuffersCommand, BuffersCommandKind, BuffersReply};
use klh::klh_core::plugins::diagnostics::{starts_with, Diagnostics, DiagnosticsAction};
use klh::klh_core::plugins::display::models::{
    AcceptStringInputRequest, AttachBufferRequest, CreateWindowRequest, GetWindowRequest, Window,
};
use klh::klh_core::plugins::display::{
    DisplayCommand, DisplayCommandKind, DisplayReply, Displays,
};
use klh::klh_core::session::{RunState, SessionError};

fn bad_request(text: &str) -> MessageError {
    MessageError::BadRequest(text.to_string())
}

#[test]
fn message_type_ids_read_back() {
    let m = MessageType::command_from_str("test").unwrap();
    assert_eq!(m.display_id(), "test");
    assert!(matches!(m, MessageType::Command(_)));
    let q = MessageType::query_from_str("plugin::query").unwrap();
    assert_eq!(q.display_id(), "plugin::query");
    assert!(matches!(q, MessageType::Query(_)));
    let e = MessageType::event_from_str("").unwrap();
    assert_eq!(e.display_id(), "");
    assert!(matches!(e, MessageType::Event(_)));
    assert_eq!(&m.id()[..4], b"test");
    assert!(m.id()[4..].iter().all(|b| *b == 0));
}

#[test]
fn message_type_ids_longer_than_the_limit_are_refused() {
    let exact = "a".repeat(MESSAGE_TYPE_ID_MAX_LENGTH);
    let long = "a".repeat(MESSAGE_TYPE_ID_MAX_LENGTH + 1);
    assert!(MessageType::command_from_str(&exact).is_ok());
    assert_eq!(
        MessageType::command_from_str(&long).unwrap_err(),
        MessageTypeError::MessageTypeIdTooLong
    );
    assert_eq!(
        MessageType::query_from_str(&long).unwrap_err(),
        MessageTypeError::MessageTypeIdTooLong
    );
    assert_eq!(
        MessageType::event_from_str(&long).unwrap_err(),
        MessageTypeError::MessageTypeIdTooLong
    );
    assert!(id_from_str(&long).is_none());
    // Multi-byte characters count by their bytes.
    assert!(MessageType::command_from_str(&"é".repeat(51)).is_err());
    assert!(MessageType::command_from_str(&"é".repeat(50)).is_ok());
}

#[test]
fn message_type_equality_goes_by_kind_and_id() {
    let a = MessageType::command_from_str("x").unwrap();
    let b = MessageType::command_from_str("x").unwrap();
    let c = MessageType::query_from_str("x").unwrap();
    let d = MessageType::command_from_str("y").unwrap();
    assert!(same_message_type(&a, &b));
    assert!(!same_message_type(&a, &c));
    assert!(!same_message_type(&a, &d));
    assert!(ids_equal(a.id(), c.id()));
    assert!(!ids_equal(a.id(), d.id()));
    assert!(c.id_equals_str("x"));
    assert!(!c.id_equals_str("xy"));
    assert!(a.expects_response());
    assert!(c.expects_response());
    assert!(!MessageType::event_from_str("x").unwrap().expects_response());
}

#[test]
fn event_type_ids_read_back() {
    let e = EventType::command_from_str("buffers::open");
    assert_eq!(e.display_id(), "buffers::open");
    assert!(matches!(e, EventType::Command(_)));
    let q = EventType::query_from_str("q");
    assert_eq!(q.display_id(), "q");
    assert!(matches!(q, EventType::Query(_)));
    let _ = BetterCommand::from_id("cmd", "content".to_string());
    let _ = CoreCommand::from_id("cmd", String::new());
}

#[test]
fn message_errors_compare_by_variant_and_reason() {
    assert_eq!(MessageError::MessageTypeNotFound, MessageError::MessageTypeNotFound);
    assert_ne!(MessageError::MessageTypeNotFound, MessageError::ResponderAlreadyUsed);
    assert_eq!(bad_request("a"), bad_request("a"));
    assert_ne!(bad_request("a"), bad_request("b"));
    assert_ne!(bad_request("a"), MessageError::FailedToSendResponse);
}

#[test]
fn one_time_values_are_handed_out_once() {
    let mut o = OneTime::new(Some(5));
    assert!(o.is_available());
    assert_eq!(o.take(), Some(5));
    assert!(!o.is_available());
    assert_eq!(o.take(), None);

    let mut h = OneTime::new(Some("handler"));
    assert_eq!(h.take_or(MessageError::ResponseHandlerAlreadyTaken), Ok("handler"));
    assert_eq!(
        h.take_or(MessageError::ResponseHandlerAlreadyTaken),
        Err(MessageError::ResponseHandlerAlreadyTaken)
    );
    let mut empty: OneTime<u8> = OneTime::new(None);
    assert_eq!(empty.take_or(MessageError::ResponderAlreadyUsed), Err(MessageError::ResponderAlreadyUsed));
}

#[test]
fn a_session_runs_only_once() {
    let mut s = RunState::new();
    assert_eq!(s.start(), Ok(()));
    assert_eq!(s.start(), Err(SessionError::SessionAlreadyStarted));
}

#[test]
fn core_plugins_registered_at_start() {
    let config = KlhConfig::default();
    assert_eq!(
        config.core_plugins,
        vec![CorePlugins::Buffers, CorePlugins::Diagnostics, CorePlugins::Displays]
    );
    assert_eq!(
        core_plugins_to_register(&config),
        vec![CorePlugins::Buffers, CorePlugins::Diagnostics, CorePlugins::Displays]
    );
    let only_displays = KlhConfig::with_core_plugins(vec![CorePlugins::Displays]);
    assert_eq!(core_plugins_to_register(&only_displays), vec![CorePlugins::Displays]);
    let none = KlhConfig::with_core_plugins(vec![]);
    assert!(core_plugins_to_register(&none).is_empty());
    let reordered =
        KlhConfig::with_core_plugins(vec![CorePlugins::Diagnostics, CorePlugins::Buffers]);
    assert_eq!(
        core_plugins_to_register(&reordered),
        vec![CorePlugins::Diagnostics, CorePlugins::Buffers]
    );
}

#[test]
fn registrar_routes_commands_to_the_last_plugin_registered() {
    let cmd = MessageType::command_from_str("a::cmd").unwrap();
    let query = MessageType::query_from_str("a::query").unwrap();
    let event = MessageType::event_from_str("a::event").unwrap();
    let mut r = PluginRegistrar::new();
    assert_eq!(r.plugin_for(&cmd), Err(MessageError::MessageTypeNotFound));
    r.register_message_types_for_plugin(&vec![cmd, query, event], 0);
    assert_eq!(r.plugin_for(&cmd), Ok(0));
    assert_eq!(r.plugin_for(&query), Ok(0));
    assert_eq!(r.plugin_for(&event), Err(MessageError::MessageTypeNotFound));
    r.register_message_types_for_plugin(&vec![cmd, event], 1);
    assert_eq!(r.plugin_for(&cmd), Ok(1));
    assert_eq!(r.plugin_for(&query), Ok(0));
    assert_eq!(r.subscribers(&event), vec![0, 1]);
    assert!(r.subscribers(&cmd).is_empty());
    let other = MessageType::command_from_str("b::cmd").unwrap();
    assert_eq!(r.plugin_for(&other), Err(MessageError::MessageTypeNotFound));
}

#[test]
fn buffers_plugin_registers_its_message_types() {
    let b = Buffers::new();
    let types = b.list_message_types();
    assert_eq!(types.len(), 4);
    assert_eq!(types[0], MessageType::command_from_str("buffers::create_buffer").unwrap());
    assert_eq!(types[1], MessageType::query_from_str("buffers::list_buffers").unwrap());
    assert_eq!(types[2], MessageType::query_from_str("buffers::get_buffer").unwrap());
    assert_eq!(types[3], MessageType::command_from_str("buffers:append_string").unwrap());
    assert_eq!(Buffers::command_kind(&types[0]), BuffersCommandKind::CreateBuffer);
    assert_eq!(Buffers::command_kind(&types[1]), BuffersCommandKind::ListBuffers);
    assert_eq!(Buffers::command_kind(&types[2]), BuffersCommandKind::GetBuffer);
    assert_eq!(Buffers::command_kind(&types[3]), BuffersCommandKind::AppendString);
    let unknown = MessageType::command_from_str("buffers::nothing").unwrap();
    assert_eq!(Buffers::command_kind(&unknown), BuffersCommandKind::Unknown);
}

fn create(b: &mut Buffers, name: &str) -> Result<BuffersReply, MessageError> {
    b.accept_command(BuffersCommand::CreateBuffer(CreateBufferRequest { name: name.to_string() }))
}

fn get_content(b: &mut Buffers, name: &str) -> Option<String> {
    match b.accept_command(BuffersCommand::GetBuffer(GetBufferRequest {
        buffer_name: name.to_string(),
    })) {
        Ok(BuffersReply::FoundBuffer(resp)) => {
            resp.buffer.map(|buf| buf.content.as_str().to_string())
        }
        _ => panic!("GetBuffer must answer with a FoundBuffer"),
    }
}

fn names(b: &mut Buffers) -> Vec<String> {
    match b.accept_command(BuffersCommand::ListBuffers) {
        Ok(BuffersReply::BufferNames(resp)) => resp.buffer_names,
        _ => panic!("ListBuffers must answer with names"),
    }
}

#[test]
fn buffers_plugin_creates_appends_and_reads_back() {
    let mut b = Buffers::new();
    assert!(names(&mut b).is_empty());
    assert!(matches!(create(&mut b, "one"), Ok(BuffersReply::Done)));
    assert!(matches!(create(&mut b, "two"), Ok(BuffersReply::Done)));
    assert_eq!(names(&mut b), vec!["one".to_string(), "two".to_string()]);
    assert_eq!(get_content(&mut b, "one"), Some(String::new()));
    assert_eq!(get_content(&mut b, "three"), None);

    let reply = b.accept_command(BuffersCommand::AppendString(AppendStringToBufferRequest {
        buffer_name: "two".to_string(),
        content: "hello".to_string(),
    }));
    match reply {
        Ok(BuffersReply::BufferAppended(buf)) => {
            assert_eq!(buf.name, "two");
            assert_eq!(buf.content.as_str(), "hello");
        }
        _ => panic!("AppendString must announce the buffer"),
    }
    b.accept_command(BuffersCommand::AppendString(AppendStringToBufferRequest {
        buffer_name: "two".to_string(),
        content: " world".to_string(),
    }))
    .unwrap();
    assert_eq!(get_content(&mut b, "two"), Some("hello world".to_string()));
    assert_eq!(get_content(&mut b, "one"), Some(String::new()));
    assert!(matches!(b.accept_command(BuffersCommand::Unknown), Ok(BuffersReply::Done)));
}

#[test]
fn buffers_plugin_errors() {
    let mut b = Buffers::new();
    create(&mut b, "one").unwrap();
    assert_eq!(create(&mut b, "one").err(), Some(bad_request("Buffer name already exists")));
    let missing = b.accept_command(BuffersCommand::AppendString(AppendStringToBufferRequest {
        buffer_name: "none".to_string(),
        content: "x".to_string(),
    }));
    assert_eq!(missing.err(), Some(bad_request("No buffer matching provided name")));
    assert_eq!(names(&mut b), vec!["one".to_string()]);
}

#[test]
fn buffer_content_appends() {
    let mut c = BufferContent::new();
    assert_eq!(c.as_str(), "");
    c.append("ab".to_string());
    c.append("c".to_string());
    assert_eq!(c.as_str(), "abc");
    assert_eq!(c.duplicate().as_str(), "abc");
    assert_eq!(BufferContent::default().as_str(), "");
}

fn windows(d: &mut Displays) -> Vec<String> {
    match d.accept_command(DisplayCommand::ListWindows) {
        Ok(DisplayReply::WindowNames(resp)) => resp.window_names,
        _ => panic!("ListWindows must answer with names"),
    }
}

fn get_window(d: &mut Displays, name: &str) -> Option<Window> {
    match d.accept_command(DisplayCommand::GetWindow(GetWindowRequest {
        window_name: name.to_string(),
    })) {
        Ok(DisplayReply::FoundWindow(resp)) => resp.window,
        _ => panic!("GetWindow must answer with a FoundWindow"),
    }
}

#[test]
fn display_plugin_registers_its_message_types() {
    let d = Displays::new();
    let types = d.list_message_types();
    assert_eq!(types.len(), 8);
    assert_eq!(Displays::command_kind(&types[0]), DisplayCommandKind::CreateWindow);
    assert_eq!(Displays::command_kind(&types[1]), DisplayCommandKind::ListWindows);
    assert_eq!(Displays::command_kind(&types[2]), DisplayCommandKind::GetWindow);
    assert_eq!(Displays::command_kind(&types[4]), DisplayCommandKind::AttachBuffer);
    assert_eq!(Displays::command_kind(&types[7]), DisplayCommandKind::AcceptStringInput);
    assert_eq!(Displays::command_kind(&types[3]), DisplayCommandKind::Unknown);
}

#[test]
fn display_plugin_windows_and_buffers() {
    let mut d = Displays::new();
    assert!(windows(&mut d).is_empty());
    let created = d.accept_command(DisplayCommand::CreateWindow(CreateWindowRequest {
        window_name: "main".to_string(),
    }));
    assert!(matches!(created, Ok(DisplayReply::Done)));
    assert_eq!(windows(&mut d), vec!["main".to_string()]);
    let w = get_window(&mut d, "main").unwrap();
    assert_eq!(w.name, "main");
    assert_eq!(w.active_buffer_name, None);
    assert!(w.associated_buffers_names.is_empty());
    assert!(get_window(&mut d, "other").is_none());

    let no_buffer = d.accept_command(DisplayCommand::AcceptStringInput(AcceptStringInputRequest {
        window_name: "main".to_string(),
        input: "x".to_string(),
    }));
    assert_eq!(
        no_buffer.err(),
        Some(bad_request("Cannot accept input in a window without an active buffer"))
    );

    d.accept_command(DisplayCommand::AttachBuffer(AttachBufferRequest {
        window_name: "main".to_string(),
        buffer_name: "scratch".to_string(),
    }))
    .unwrap();
    let w = get_window(&mut d, "main").unwrap();
    assert_eq!(w.active_buffer_name, Some("scratch".to_string()));
    assert_eq!(w.associated_buffers_names, vec!["scratch".to_string()]);

    let typed = d.accept_command(DisplayCommand::AcceptStringInput(AcceptStringInputRequest {
        window_name: "main".to_string(),
        input: "typed".to_string(),
    }));
    match typed {
        Ok(DisplayReply::AppendToBuffer(req)) => {
            assert_eq!(req.buffer_name, "scratch");
            assert_eq!(req.content, "typed");
        }
        _ => panic!("AcceptStringInput must ask for an append"),
    }
}

#[test]
fn display_plugin_errors() {
    let mut d = Displays::new();
    let req = || CreateWindowRequest { window_name: "w".to_string() };
    d.accept_command(DisplayCommand::CreateWindow(req())).unwrap();
    assert_eq!(
        d.accept_command(DisplayCommand::CreateWindow(req())).err(),
        Some(bad_request("Window name already exists"))
    );
    let missing = d.accept_command(DisplayCommand::AcceptStringInput(AcceptStringInputRequest {
        window_name: "nowhere".to_string(),
        input: "x".to_string(),
    }));
    assert_eq!(missing.err(), Some(bad_request("Could not find window by provided name")));
    assert!(matches!(d.accept_command(DisplayCommand::Unknown), Ok(DisplayReply::Done)));
    assert_eq!(windows(&mut d), vec!["w".to_string()]);
}

#[test]
fn window_duplicates_keep_everything() {
    let w = Window::new("w".to_string());
    let c = w.duplicate();
    assert_eq!(c.name, "w");
    assert_eq!(c.active_buffer_name, None);
}

#[test]
fn diagnostics_actions() {
    let d = Diagnostics::new();
    let types = d.list_message_types();
    assert_eq!(types.len(), 2);
    assert_eq!(Diagnostics::action_for(&types[0]), DiagnosticsAction::LogEvent);
    assert_eq!(Diagnostics::action_for(&types[1]), DiagnosticsAction::SlowBomb);
    let q = MessageType::query_from_str("diagnostics::log_event").unwrap();
    assert_eq!(Diagnostics::action_for(&q), DiagnosticsAction::Ignore);
    let other = MessageType::command_from_str("diagnostics::other").unwrap();
    assert_eq!(Diagnostics::action_for(&other), DiagnosticsAction::Ignore);
    let longer = MessageType::command_from_str("diagnostics::log_event_more").unwrap();
    assert_eq!(Diagnostics::action_for(&longer), DiagnosticsAction::LogEvent);
    assert!(starts_with(types[0].id(), "diagnostics::"));
    assert!(!starts_with(types[0].id(), "buffers::"));
    assert!(!starts_with(types[0].id(), &"a".repeat(101)));
}

#[test]
fn commands_become_event_messages() {
    let mut command = BetterCommand::from_id("cmd", "content".to_string());
    let mut message: EventMessage<u8> = command.get_event_message().unwrap();
    assert_eq!(message.get_event_type(), EventType::command_from_str("cmd"));
    assert_eq!(message.get_responder(), None);
    assert_eq!(message.get_content(), Some("content".to_string()));
    assert_eq!(message.get_content(), None);
    let mut again: EventMessage<u8> = command.get_event_message().unwrap();
    assert_eq!(again.get_content(), Some("content".to_string()));

    let mut other = CoreCommand::from_id("other", "x".to_string());
    let mut m: EventMessage<()> = other.get_event_message().unwrap();
    assert_eq!(m.get_event_type(), EventType::command_from_str("other"));
    assert_eq!(m.get_content(), Some("x".to_string()));
}

#[test]
fn event_message_responders_are_taken_once() {
    let q = EventType::query_from_str("q");
    let mut m = EventMessage::new(q, Some(7u8), None);
    assert_eq!(m.get_event_type(), q);
    assert_eq!(m.get_content(), None);
    assert_eq!(m.get_responder(), Some(7));
    assert_eq!(m.get_responder(), None);
}
