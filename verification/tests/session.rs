use carta_term::error::CartaTermError;
use carta_term::session::{
    is_quit_key, next_step, resize_report, KeyCode, KeyModifiers, LoopAction, LoopInput,
    TerminalEvent, TerminalMode,
};

const NONE: KeyModifiers = KeyModifiers { shift: false, control: false, alt: false };
const CONTROL: KeyModifiers = KeyModifiers { shift: false, control: true, alt: false };
const SHIFT: KeyModifiers = KeyModifiers { shift: true, control: false, alt: false };
const CONTROL_ALT: KeyModifiers = KeyModifiers { shift: false, control: true, alt: true };

fn key(code: KeyCode, modifiers: KeyModifiers) -> LoopInput {
    LoopInput::Event(TerminalEvent::Key { code, modifiers })
}

fn run(inputs: Vec<LoopInput>) -> (TerminalMode, Vec<LoopAction>) {
    let mut mode = TerminalMode::Normal;
    let mut actions = Vec::new();
    for input in &inputs {
        let (next, action) = next_step(mode, input);
        mode = next;
        actions.push(action);
    }
    (mode, actions)
}

fn count(actions: &[LoopAction], wanted: &LoopAction) -> usize {
    actions.iter().filter(|action| *action == wanted).count()
}

#[test]
fn q_without_modifiers_ends_the_loop() {
    assert!(is_quit_key(KeyCode::Char('q'), NONE));
    assert_eq!(
        next_step(TerminalMode::Raw, &key(KeyCode::Char('q'), NONE)),
        (TerminalMode::Normal, LoopAction::DisableRawMode)
    );
}

#[test]
fn control_c_ends_the_loop() {
    assert!(is_quit_key(KeyCode::Char('c'), CONTROL));
    assert_eq!(
        next_step(TerminalMode::Raw, &key(KeyCode::Char('c'), CONTROL)),
        (TerminalMode::Normal, LoopAction::DisableRawMode)
    );
}

#[test]
fn a_without_modifiers_waits_again() {
    assert!(!is_quit_key(KeyCode::Char('a'), NONE));
    assert_eq!(
        next_step(TerminalMode::Raw, &key(KeyCode::Char('a'), NONE)),
        (TerminalMode::Raw, LoopAction::AwaitEvent)
    );
}

#[test]
fn quit_keys() {
    assert!(is_quit_key(KeyCode::Esc, NONE));
    assert!(is_quit_key(KeyCode::Esc, CONTROL_ALT));
    assert!(is_quit_key(KeyCode::Char('d'), CONTROL));
    assert!(is_quit_key(KeyCode::Char('q'), CONTROL));
    assert!(is_quit_key(KeyCode::Char('q'), SHIFT));
    assert!(!is_quit_key(KeyCode::Char('c'), NONE));
    assert!(!is_quit_key(KeyCode::Char('d'), NONE));
    assert!(!is_quit_key(KeyCode::Char('c'), CONTROL_ALT));
    assert!(!is_quit_key(KeyCode::Char('d'), SHIFT));
    assert!(!is_quit_key(KeyCode::Char('Q'), NONE));
    assert!(!is_quit_key(KeyCode::Char('x'), CONTROL));
    assert!(!is_quit_key(KeyCode::Other, NONE));
    assert!(!is_quit_key(KeyCode::Other, CONTROL));
}

#[test]
fn start_switches_to_raw_mode() {
    assert_eq!(
        next_step(TerminalMode::Normal, &LoopInput::Start),
        (TerminalMode::Raw, LoopAction::EnableRawMode)
    );
    assert_eq!(
        next_step(TerminalMode::Raw, &LoopInput::Start),
        (TerminalMode::Raw, LoopAction::AwaitEvent)
    );
}

#[test]
fn failure_switches_back() {
    assert_eq!(
        next_step(TerminalMode::Raw, &LoopInput::Failure),
        (TerminalMode::Normal, LoopAction::DisableRawMode)
    );
}

#[test]
fn nothing_happens_without_a_loop() {
    assert_eq!(
        next_step(TerminalMode::Normal, &LoopInput::Failure),
        (TerminalMode::Normal, LoopAction::Idle)
    );
    assert_eq!(
        next_step(TerminalMode::Normal, &key(KeyCode::Char('q'), NONE)),
        (TerminalMode::Normal, LoopAction::Idle)
    );
}

#[test]
fn pointer_and_resize_are_reported() {
    let pointer = LoopInput::Event(TerminalEvent::Mouse { description: "moved to 3,4".to_string() });
    assert_eq!(
        next_step(TerminalMode::Raw, &pointer),
        (TerminalMode::Raw, LoopAction::Report("moved to 3,4".to_string()))
    );
    let resize = LoopInput::Event(TerminalEvent::Resize { width: 80, height: 24 });
    assert_eq!(
        next_step(TerminalMode::Raw, &resize),
        (TerminalMode::Raw, LoopAction::Report("New size 80x24".to_string()))
    );
}

#[test]
fn resize_report_text() {
    assert_eq!(resize_report(80, 24), "New size 80x24");
    assert_eq!(resize_report(0, 0), "New size 0x0");
    assert_eq!(resize_report(65535, 1), "New size 65535x1");
    assert_eq!(resize_report(100, 10), format!("New size {}x{}", 100, 10));
}

#[test]
fn raw_mode_is_left_once_on_quit() {
    let (mode, actions) = run(vec![
        LoopInput::Start,
        key(KeyCode::Char('a'), NONE),
        LoopInput::Event(TerminalEvent::Resize { width: 10, height: 5 }),
        key(KeyCode::Char('c'), NONE),
        key(KeyCode::Esc, NONE),
    ]);
    assert_eq!(mode, TerminalMode::Normal);
    assert_eq!(
        actions,
        vec![
            LoopAction::EnableRawMode,
            LoopAction::AwaitEvent,
            LoopAction::Report("New size 10x5".to_string()),
            LoopAction::AwaitEvent,
            LoopAction::DisableRawMode,
        ]
    );
}

#[test]
fn raw_mode_is_left_once_on_failure() {
    let (mode, actions) = run(vec![LoopInput::Start, LoopInput::Failure]);
    assert_eq!(mode, TerminalMode::Normal);
    assert_eq!(actions, vec![LoopAction::EnableRawMode, LoopAction::DisableRawMode]);
    let (mode, actions) = run(vec![
        LoopInput::Start,
        key(KeyCode::Other, NONE),
        LoopInput::Failure,
        LoopInput::Failure,
        key(KeyCode::Char('q'), NONE),
    ]);
    assert_eq!(mode, TerminalMode::Normal);
    assert_eq!(count(&actions, &LoopAction::EnableRawMode), 1);
    assert_eq!(count(&actions, &LoopAction::DisableRawMode), 1);
    assert_eq!(actions[3], LoopAction::Idle);
    assert_eq!(actions[4], LoopAction::Idle);
}

#[test]
fn raw_mode_is_kept_while_the_loop_runs() {
    let (mode, actions) = run(vec![
        LoopInput::Start,
        key(KeyCode::Char('c'), SHIFT),
        key(KeyCode::Char('d'), NONE),
        LoopInput::Event(TerminalEvent::Mouse { description: String::new() }),
    ]);
    assert_eq!(mode, TerminalMode::Raw);
    assert_eq!(count(&actions, &LoopAction::DisableRawMode), 0);
    assert_eq!(count(&actions, &LoopAction::EnableRawMode), 1);
}

#[test]
fn error_messages() {
    let error = CartaTermError::FileRead { path: "data.bin".to_string() };
    assert_eq!(error.message(), "Error reading file: data.bin");
    let error = CartaTermError::SchemaCompile { message: "Line 1: Missing struct \"root\"".to_string() };
    assert_eq!(error.message(), "Line 1: Missing struct \"root\"");
    let error = CartaTermError::Terminal { message: "not a terminal".to_string() };
    assert_eq!(error.message(), "not a terminal");
}
