use pretender::command_state::{CommandEntryState, EntryAction};
use pretender::commands::register_commands;
use pretender::input_collection::{CollectionAction, CollectionEvent};
use pretender::keys::KeyCode;
use pretender::resources::{CapturedInput, InputDesc};

const QUIT: u32 = 0;
const LINE: u32 = 1;
const ARC: u32 = 2;

#[test]
fn zero_argument_command_invokes_immediately() {
    let registry = register_commands(QUIT, LINE, ARC);
    let mut entry = CommandEntryState { command: String::new() };
    for key in [KeyCode::Q, KeyCode::U, KeyCode::I, KeyCode::T] {
        assert!(matches!(entry.handle_key(key, &registry), EntryAction::Keep));
    }
    assert_eq!(entry.command, "quit");
    match entry.handle_key(KeyCode::Return, &registry) {
        EntryAction::Invoke(handler, args) => {
            assert_eq!(handler, QUIT);
            assert!(args.is_empty());
        }
        _ => panic!("a zero-argument command must be invoked at once"),
    }
}

#[test]
fn exit_alias_invokes_quit_handler() {
    let registry = register_commands(QUIT, LINE, ARC);
    let mut entry = CommandEntryState { command: String::from("exit") };
    match entry.handle_key(KeyCode::NumpadEnter, &registry) {
        EntryAction::Invoke(handler, args) => {
            assert_eq!(handler, QUIT);
            assert!(args.is_empty());
        }
        _ => panic!("the alias must resolve to the zero-argument quit command"),
    }
}

#[test]
fn unknown_command_pops_silently() {
    let registry = register_commands(QUIT, LINE, ARC);
    let mut entry = CommandEntryState { command: String::new() };
    entry.handle_key(KeyCode::Z, &registry);
    entry.handle_key(KeyCode::Z, &registry);
    assert!(matches!(entry.handle_key(KeyCode::Return, &registry), EntryAction::Pop));
}

#[test]
fn cancel_key_pops_entry() {
    let registry = register_commands(QUIT, LINE, ARC);
    let mut entry = CommandEntryState { command: String::from("qui") };
    assert!(matches!(entry.handle_key(KeyCode::Escape, &registry), EntryAction::Pop));
    assert_eq!(entry.command, "qui");
}

#[test]
fn unclassified_key_changes_nothing() {
    let registry = register_commands(QUIT, LINE, ARC);
    let mut entry = CommandEntryState { command: String::from("li") };
    assert!(matches!(entry.handle_key(KeyCode::F5, &registry), EntryAction::Keep));
    assert_eq!(entry.command, "li");
}

#[test]
fn numpad_digits_type_the_same_characters() {
    let registry = register_commands(QUIT, LINE, ARC);
    let mut entry = CommandEntryState { command: String::new() };
    entry.handle_key(KeyCode::Numpad4, &registry);
    entry.handle_key(KeyCode::Key2, &registry);
    assert_eq!(entry.command, "42");
}

#[test]
fn two_argument_command_completes_after_two_captures() {
    let registry = register_commands(QUIT, LINE, ARC);
    let mut entry = CommandEntryState { command: String::from("line") };
    let mut session = match entry.handle_key(KeyCode::Return, &registry) {
        EntryAction::Begin(session) => session,
        _ => panic!("a command with declared arguments must begin collection"),
    };
    assert_eq!(session.next_kind(), Some(InputDesc::Point));
    let mut invocations = 0;
    match session.handle_event(CollectionEvent::Captured(CapturedInput::Point(1, 2))) {
        CollectionAction::Keep => {}
        _ => panic!("the first of two captures must only advance the session"),
    }
    assert_eq!(session.next_kind(), Some(InputDesc::Point));
    match session.handle_event(CollectionEvent::Captured(CapturedInput::Point(3, 4))) {
        CollectionAction::Invoke(handler, args) => {
            invocations += 1;
            assert_eq!(handler, LINE);
            assert_eq!(args, vec![CapturedInput::Point(1, 2), CapturedInput::Point(3, 4)]);
        }
        _ => panic!("the last capture must invoke the handler"),
    }
    assert_eq!(invocations, 1);
}

#[test]
fn cancel_mid_collection_discards_partial_arguments() {
    let registry = register_commands(QUIT, LINE, ARC);
    let mut entry = CommandEntryState { command: String::from("line") };
    let mut session = match entry.handle_key(KeyCode::Return, &registry) {
        EntryAction::Begin(session) => session,
        _ => panic!("line declares arguments"),
    };
    match session.handle_event(CollectionEvent::Captured(CapturedInput::Point(5, 5))) {
        CollectionAction::Keep => {}
        _ => panic!("one of two captures must not complete the command"),
    }
    match session.handle_event(CollectionEvent::Cancel) {
        CollectionAction::Pop => {}
        _ => panic!("cancel must pop without invoking"),
    }
}

#[test]
fn three_argument_command_counts_three_cycles() {
    let registry = register_commands(QUIT, LINE, ARC);
    let mut entry = CommandEntryState { command: String::from("arc") };
    let mut session = match entry.handle_key(KeyCode::Space, &registry) {
        EntryAction::Begin(session) => session,
        _ => panic!("arc declares arguments"),
    };
    let captures = [
        CapturedInput::Point(0, 0),
        CapturedInput::Point(10, 0),
        CapturedInput::Point(10, 10),
    ];
    let mut done = false;
    for (step, value) in captures.iter().enumerate() {
        match session.handle_event(CollectionEvent::Captured(value.clone())) {
            CollectionAction::Keep => assert!(step + 1 < captures.len()),
            CollectionAction::Invoke(handler, args) => {
                assert_eq!(step + 1, captures.len());
                assert_eq!(handler, ARC);
                assert_eq!(args.len(), 3);
                done = true;
            }
            CollectionAction::Pop => panic!("nothing was cancelled"),
        }
    }
    assert!(done);
}

#[test]
fn end_to_end_line_through_alias() {
    let registry = register_commands(QUIT, LINE, ARC);

    // the user types "l" in the root context, which opens command entry
    let seed = match pretender::root_state::root_key_action(KeyCode::L) {
        pretender::root_state::RootAction::BeginEntry(c) => c,
        _ => panic!("an alphanumeric key must open command entry"),
    };
    let mut entry = CommandEntryState { command: String::from(seed) };

    // confirming resolves the alias "l" to the line command
    let mut session = match entry.handle_key(KeyCode::Return, &registry) {
        EntryAction::Begin(session) => session,
        _ => panic!("the alias must resolve to the two-point line command"),
    };
    assert_eq!(session.command.name, "line");

    // two point-capture cycles follow
    let mut invocations = 0;
    match session.handle_event(CollectionEvent::Captured(CapturedInput::Point(10, 10))) {
        CollectionAction::Keep => {}
        _ => panic!("the first point must not complete the command"),
    }
    match session.handle_event(CollectionEvent::Captured(CapturedInput::Point(50, 80))) {
        CollectionAction::Invoke(handler, args) => {
            invocations += 1;
            assert_eq!(handler, LINE);
            assert_eq!(
                args,
                vec![CapturedInput::Point(10, 10), CapturedInput::Point(50, 80)]
            );
        }
        _ => panic!("the second point must complete the command"),
    }
    assert_eq!(invocations, 1);
}
