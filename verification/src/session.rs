//! The interactive loop, as a state machine.
//!
//! The loop switches the terminal to raw mode, waits for events until one of
//! them asks to quit, and switches the terminal back. The machine here makes
//! the decisions; a driver carries out each action on the terminal and hands
//! back what happened. Raw mode is left again on every way out of the loop,
//! also when the terminal reports a failure.

use vstd::prelude::*;
use crate::text::{decimal, push_decimal};

verus! {

/// The key of a key event, as far as the loop tells keys apart.
#[derive(Clone, Copy, Debug, PartialEq, Eq, Structural)]
pub enum KeyCode {
    /// A character key.
    Char(char),
    /// The escape key.
    Esc,
    /// Any other key.
    Other,
}

/// The modifier keys held down with a key.
#[derive(Clone, Copy, Debug, PartialEq, Eq, Structural)]
pub struct KeyModifiers {
    pub shift: bool,
    pub control: bool,
    pub alt: bool,
}

impl KeyModifiers {
    /// Whether control is held and no other modifier.
    pub open spec fn is_control_only(self) -> bool {
        self.control && !self.shift && !self.alt
    }
}

/// What the terminal reports while the loop waits.
#[derive(Debug, PartialEq, Eq)]
pub enum TerminalEvent {
    /// A key was pressed.
    Key { code: KeyCode, modifiers: KeyModifiers },
    /// The pointer did something; `description` says what, as one line.
    Mouse { description: String },
    /// The terminal has a new size, in columns and rows.
    Resize { width: u16, height: u16 },
}

/// A terminal event as a mathematical value.
pub enum EventModel {
    Key { code: KeyCode, modifiers: KeyModifiers },
    Mouse { description: Seq<char> },
    Resize { width: u16, height: u16 },
}

impl View for TerminalEvent {
    type V = EventModel;

    open spec fn view(&self) -> EventModel {
        match *self {
            TerminalEvent::Key { code, modifiers } => EventModel::Key { code, modifiers },
            TerminalEvent::Mouse { description } => EventModel::Mouse {
                description: description@,
            },
            TerminalEvent::Resize { width, height } => EventModel::Resize { width, height },
        }
    }
}

/// The input mode of the terminal.
#[derive(Clone, Copy, Debug, PartialEq, Eq, Structural)]
pub enum TerminalMode {
    /// The mode the terminal had before the loop.
    Normal,
    /// Keys arrive at once, unbuffered and without echo.
    Raw,
}

/// What the driver hands to the machine.
#[derive(Debug, PartialEq, Eq)]
pub enum LoopInput {
    /// The loop is to begin.
    Start,
    /// The terminal reported an event.
    Event(TerminalEvent),
    /// The terminal failed to switch to raw mode or to deliver an event.
    Failure,
}

/// An input as a mathematical value.
pub enum InputModel {
    Start,
    Event(EventModel),
    Failure,
}

impl View for LoopInput {
    type V = InputModel;

    open spec fn view(&self) -> InputModel {
        match *self {
            LoopInput::Start => InputModel::Start,
            LoopInput::Event(event) => InputModel::Event(event@),
            LoopInput::Failure => InputModel::Failure,
        }
    }
}

/// What the machine asks the driver to do.
#[derive(Debug, PartialEq, Eq)]
pub enum LoopAction {
    /// Switch the terminal to raw mode, then wait for the next event.
    EnableRawMode,
    /// Wait for the next event.
    AwaitEvent,
    /// Print the line, then wait for the next event.
    Report(String),
    /// Switch the terminal back; the loop is over.
    DisableRawMode,
    /// Nothing: no loop is running.
    Idle,
}

/// An action as a mathematical value.
pub enum ActionModel {
    EnableRawMode,
    AwaitEvent,
    Report(Seq<char>),
    DisableRawMode,
    Idle,
}

impl View for LoopAction {
    type V = ActionModel;

    open spec fn view(&self) -> ActionModel {
        match *self {
            LoopAction::EnableRawMode => ActionModel::EnableRawMode,
            LoopAction::AwaitEvent => ActionModel::AwaitEvent,
            LoopAction::Report(line) => ActionModel::Report(line@),
            LoopAction::DisableRawMode => ActionModel::DisableRawMode,
            LoopAction::Idle => ActionModel::Idle,
        }
    }
}

/// Whether a key asks to quit: `q`, escape, or `c` or `d` with control and
/// no other modifier.
pub open spec fn is_quit(code: KeyCode, modifiers: KeyModifiers) -> bool {
    ||| code == KeyCode::Char('q')
    ||| code == KeyCode::Esc
    ||| (code == KeyCode::Char('c') && modifiers.is_control_only())
    ||| (code == KeyCode::Char('d') && modifiers.is_control_only())
}

/// The line printed when the terminal has a new size.
pub open spec fn resize_line(width: u16, height: u16) -> Seq<char> {
    "New size "@ + decimal(width as nat) + "x"@ + decimal(height as nat)
}

/// Whether an input ends a running loop: a key that asks to quit, or a
/// failure of the terminal.
pub open spec fn ends_loop(input: InputModel) -> bool {
    match input {
        InputModel::Start => false,
        InputModel::Failure => true,
        InputModel::Event(event) => match event {
            EventModel::Key { code, modifiers } => is_quit(code, modifiers),
            _ => false,
        },
    }
}

/// One step of the machine: the mode after `input` arrived in `mode`, and
/// the action to carry out.
pub open spec fn step(mode: TerminalMode, input: InputModel) -> (TerminalMode, ActionModel) {
    match mode {
        TerminalMode::Normal => match input {
            InputModel::Start => (TerminalMode::Raw, ActionModel::EnableRawMode),
            _ => (TerminalMode::Normal, ActionModel::Idle),
        },
        TerminalMode::Raw => match input {
            InputModel::Start => (TerminalMode::Raw, ActionModel::AwaitEvent),
            InputModel::Failure => (TerminalMode::Normal, ActionModel::DisableRawMode),
            InputModel::Event(event) => match event {
                EventModel::Key { code, modifiers } => if is_quit(code, modifiers) {
                    (TerminalMode::Normal, ActionModel::DisableRawMode)
                } else {
                    (TerminalMode::Raw, ActionModel::AwaitEvent)
                },
                EventModel::Mouse { description } => (
                    TerminalMode::Raw,
                    ActionModel::Report(description),
                ),
                EventModel::Resize { width, height } => (
                    TerminalMode::Raw,
                    ActionModel::Report(resize_line(width, height)),
                ),
            },
        },
    }
}

/// The mode after all of `inputs` arrived one by one, starting in `mode`.
pub open spec fn mode_after(mode: TerminalMode, inputs: Seq<InputModel>) -> TerminalMode
    decreases inputs.len(),
{
    if inputs.len() == 0 {
        mode
    } else {
        step(mode_after(mode, inputs.drop_last()), inputs.last()).0
    }
}

/// The actions asked for as `inputs` arrived one by one, starting in `mode`.
pub open spec fn actions_of(mode: TerminalMode, inputs: Seq<InputModel>) -> Seq<ActionModel>
    decreases inputs.len(),
{
    if inputs.len() == 0 {
        Seq::empty()
    } else {
        actions_of(mode, inputs.drop_last()).push(
            step(mode_after(mode, inputs.drop_last()), inputs.last()).1,
        )
    }
}

/// How often `actions` asks to switch to raw mode.
pub open spec fn enable_count(actions: Seq<ActionModel>) -> nat
    decreases actions.len(),
{
    if actions.len() == 0 {
        0
    } else {
        enable_count(actions.drop_last()) + if actions.last() is EnableRawMode {
            1nat
        } else {
            0nat
        }
    }
}

/// How often `actions` asks to switch back from raw mode.
pub open spec fn disable_count(actions: Seq<ActionModel>) -> nat
    decreases actions.len(),
{
    if actions.len() == 0 {
        0
    } else {
        disable_count(actions.drop_last()) + if actions.last() is DisableRawMode {
            1nat
        } else {
            0nat
        }
    }
}

/// Whether a key asks to quit.
pub fn is_quit_key(code: KeyCode, modifiers: KeyModifiers) -> (quit: bool)
    ensures
        quit == is_quit(code, modifiers),
{
    let control_only = modifiers.control && !modifiers.shift && !modifiers.alt;
    match code {
        KeyCode::Esc => true,
        KeyCode::Char(ch) => ch == 'q' || ((ch == 'c' || ch == 'd') && control_only),
        KeyCode::Other => false,
    }
}

/// The line printed when the terminal has a new size.
pub fn resize_report(width: u16, height: u16) -> (line: String)
    ensures
        line@ == resize_line(width, height),
{
    let mut line = "New size ".to_owned();
    push_decimal(&mut line, width);
    line.append("x");
    push_decimal(&mut line, height);
    line
}

/// One step of the loop: given the mode and what the driver reports, the
/// mode to go on in and the action to carry out.
pub fn next_step(mode: TerminalMode, input: &LoopInput) -> (out: (TerminalMode, LoopAction))
    ensures
        (out.0, out.1@) == step(mode, input@),
{
    match mode {
        TerminalMode::Normal => match input {
            LoopInput::Start => (TerminalMode::Raw, LoopAction::EnableRawMode),
            _ => (TerminalMode::Normal, LoopAction::Idle),
        },
        TerminalMode::Raw => match input {
            LoopInput::Start => (TerminalMode::Raw, LoopAction::AwaitEvent),
            LoopInput::Failure => (TerminalMode::Normal, LoopAction::DisableRawMode),
            LoopInput::Event(event) => match event {
                TerminalEvent::Key { code, modifiers } => {
                    if is_quit_key(*code, *modifiers) {
                        (TerminalMode::Normal, LoopAction::DisableRawMode)
                    } else {
                        (TerminalMode::Raw, LoopAction::AwaitEvent)
                    }
                },
                TerminalEvent::Mouse { description } => (
                    TerminalMode::Raw,
                    LoopAction::Report(description.clone()),
                ),
                TerminalEvent::Resize { width, height } => (
                    TerminalMode::Raw,
                    LoopAction::Report(resize_report(*width, *height)),
                ),
            },
        },
    }
}

/// The inputs of one loop: the start, then what the terminal reported.
pub open spec fn loop_inputs(responses: Seq<InputModel>) -> Seq<InputModel> {
    seq![InputModel::Start] + responses
}

/// From the start of a loop on, whatever the terminal reports: raw mode is
/// switched on once; it has been switched off once when the loop is over and
/// not at all while it runs; and the loop is over exactly when a key asked
/// to quit or the terminal failed.
pub proof fn lemma_raw_mode_left_once(responses: Seq<InputModel>)
    requires
        forall|i: int| 0 <= i < responses.len() ==> !(#[trigger] responses[i] is Start),
    ensures
        actions_of(TerminalMode::Normal, loop_inputs(responses)).len() == responses.len() + 1,
        actions_of(TerminalMode::Normal, loop_inputs(responses))[0] is EnableRawMode,
        enable_count(actions_of(TerminalMode::Normal, loop_inputs(responses))) == 1,
        mode_after(TerminalMode::Normal, loop_inputs(responses)) == TerminalMode::Normal
            ==> disable_count(actions_of(TerminalMode::Normal, loop_inputs(responses))) == 1,
        mode_after(TerminalMode::Normal, loop_inputs(responses)) == TerminalMode::Raw
            ==> disable_count(actions_of(TerminalMode::Normal, loop_inputs(responses))) == 0,
        mode_after(TerminalMode::Normal, loop_inputs(responses)) == TerminalMode::Normal
            <==> exists|i: int| 0 <= i < responses.len() && ends_loop(#[trigger] responses[i]),
    decreases responses.len(),
{
    let inputs = loop_inputs(responses);
    let actions = actions_of(TerminalMode::Normal, inputs);
    if responses.len() == 0 {
        assert(actions_of(TerminalMode::Normal, inputs.drop_last()).len() == 0);
        assert(enable_count(actions.drop_last()) == 0);
        assert(disable_count(actions.drop_last()) == 0);
    } else {
        let shorter = responses.drop_last();
        lemma_raw_mode_left_once(shorter);
        assert(inputs.drop_last() =~= loop_inputs(shorter));
        let before = actions_of(TerminalMode::Normal, inputs.drop_last());
        assert(actions.drop_last() =~= before);
        if exists|i: int| 0 <= i < responses.len() && ends_loop(#[trigger] responses[i]) {
            let i = choose|i: int| 0 <= i < responses.len() && ends_loop(#[trigger] responses[i]);
            if i < shorter.len() {
                assert(ends_loop(shorter[i]));
            }
        }
    }
}

} // verus!
