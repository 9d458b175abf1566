//! What the SDL port's event loop does with each window event: which input
//! events it hands to the web view, and when it quits or reloads.

use vstd::prelude::*;

verus! {

/// The SDL key codes the port reacts to; every other key is `Other`.
#[derive(Clone, Copy, Debug, PartialEq, Eq, Structural)]
pub enum SdlKeycode {
    Backspace,
    Delete,
    Return,
    Escape,
    Up,
    Down,
    Left,
    Right,
    F5,
    Other,
}

/// The SDL mouse buttons.
#[derive(Clone, Copy, Debug, PartialEq, Eq, Structural)]
pub enum SdlMouseButton {
    Left,
    Middle,
    Right,
    X1,
    X2,
    Unknown,
}

/// The named keys the port sends to the web view.
#[derive(Clone, Copy, Debug, PartialEq, Eq, Structural)]
pub enum NamedKey {
    Backspace,
    Delete,
    Enter,
    Escape,
    ArrowUp,
    ArrowDown,
    ArrowLeft,
    ArrowRight,
}

/// A key as the web view receives it.
#[derive(Debug)]
pub enum KeyValue {
    Named(NamedKey),
    Character(String),
}

/// Whether a key goes down or up.
#[derive(Clone, Copy, Debug, PartialEq, Eq, Structural)]
pub enum KeyState {
    Down,
    Up,
}

/// A mouse button as the web view receives it.
#[derive(Clone, Copy, Debug, PartialEq, Eq, Structural)]
pub enum PointerButton {
    Left,
    Middle,
    Right,
    Back,
    Forward,
    Other(u16),
}

/// Whether a mouse button goes down or up.
#[derive(Clone, Copy, Debug, PartialEq, Eq, Structural)]
pub enum ButtonAction {
    Down,
    Up,
}

/// An input event for the web view, in device pixels.
#[derive(Debug)]
pub enum InputCommand {
    MouseMove { x: i32, y: i32 },
    MouseButton { action: ButtonAction, button: PointerButton, x: i32, y: i32 },
    /// A scroll at the point `at_x`, `at_y`: `dx` pixels horizontally, and
    /// vertically `dy_reversed` pixels in the opposite direction. The web
    /// view's vertical delta is `dy_reversed` negated as a float, so that a
    /// scroll with no vertical part reports `-0.0`, as SDL's wheel value
    /// times `-38.0` does.
    Wheel { dx: i64, dy_reversed: i64, at_x: i32, at_y: i32 },
    Keyboard { state: KeyState, key: KeyValue },
}

/// The SDL window events the port reacts to; every other event is `Other`.
#[derive(Debug)]
pub enum SdlEvent {
    Quit,
    MouseMotion { x: i32, y: i32 },
    MouseButtonDown { button: SdlMouseButton, x: i32, y: i32 },
    MouseButtonUp { button: SdlMouseButton, x: i32, y: i32 },
    MouseWheel { x: i32, y: i32 },
    TextInput { text: String },
    KeyDown { keycode: Option<SdlKeycode> },
    KeyUp { keycode: Option<SdlKeycode> },
    Other,
}

/// What the event loop does besides sending input events.
#[derive(Clone, Copy, Debug, PartialEq, Eq, Structural)]
pub enum LoopAction {
    Continue,
    Reload,
    Quit,
}

/// Pixels scrolled per wheel notch.
pub open spec fn wheel_step() -> int {
    38
}

/// The named key an SDL key code stands for, if any.
pub open spec fn named_key(k: SdlKeycode) -> Option<NamedKey> {
    match k {
        SdlKeycode::Backspace => Some(NamedKey::Backspace),
        SdlKeycode::Delete => Some(NamedKey::Delete),
        SdlKeycode::Return => Some(NamedKey::Enter),
        SdlKeycode::Escape => Some(NamedKey::Escape),
        SdlKeycode::Up => Some(NamedKey::ArrowUp),
        SdlKeycode::Down => Some(NamedKey::ArrowDown),
        SdlKeycode::Left => Some(NamedKey::ArrowLeft),
        SdlKeycode::Right => Some(NamedKey::ArrowRight),
        _ => None,
    }
}

/// The web view's mouse button for an SDL mouse button.
pub open spec fn pointer_button(b: SdlMouseButton) -> PointerButton {
    match b {
        SdlMouseButton::Left => PointerButton::Left,
        SdlMouseButton::Right => PointerButton::Right,
        SdlMouseButton::Middle => PointerButton::Middle,
        SdlMouseButton::X1 => PointerButton::Back,
        SdlMouseButton::X2 => PointerButton::Forward,
        SdlMouseButton::Unknown => PointerButton::Other(0),
    }
}

/// The key events sent for a key code going to `state`.
pub open spec fn key_commands(state: KeyState, keycode: Option<SdlKeycode>) -> Seq<InputCommand> {
    match keycode {
        Some(k) => match named_key(k) {
            Some(n) => seq![InputCommand::Keyboard { state, key: KeyValue::Named(n) }],
            None => Seq::empty(),
        },
        None => Seq::empty(),
    }
}

/// The input events sent to the web view for a window event.
pub open spec fn event_commands(e: SdlEvent) -> Seq<InputCommand> {
    match e {
        SdlEvent::MouseMotion { x, y } => seq![InputCommand::MouseMove { x, y }],
        SdlEvent::MouseButtonDown { button, x, y } => seq![
            InputCommand::MouseButton { action: ButtonAction::Down, button: pointer_button(button), x, y },
        ],
        SdlEvent::MouseButtonUp { button, x, y } => seq![
            InputCommand::MouseButton { action: ButtonAction::Up, button: pointer_button(button), x, y },
        ],
        SdlEvent::MouseWheel { x, y } => seq![
            InputCommand::Wheel {
                dx: (wheel_step() * x) as i64,
                dy_reversed: (wheel_step() * y) as i64,
                at_x: 0,
                at_y: 0,
            },
        ],
        SdlEvent::TextInput { text } => seq![
            InputCommand::Keyboard { state: KeyState::Down, key: KeyValue::Character(text) },
            InputCommand::Keyboard { state: KeyState::Up, key: KeyValue::Character(text) },
        ],
        SdlEvent::KeyDown { keycode } => key_commands(KeyState::Down, keycode),
        SdlEvent::KeyUp { keycode } => key_commands(KeyState::Up, keycode),
        _ => Seq::empty(),
    }
}

/// The loop's own reaction to a window event: closing the window quits,
/// pressing F5 reloads the page.
pub open spec fn event_action(e: SdlEvent) -> LoopAction {
    match e {
        SdlEvent::Quit => LoopAction::Quit,
        SdlEvent::KeyDown { keycode: Some(SdlKeycode::F5) } => LoopAction::Reload,
        _ => LoopAction::Continue,
    }
}

/// The named key for an SDL key code.
pub fn named_key_for(k: SdlKeycode) -> (n: Option<NamedKey>)
    ensures
        n == named_key(k),
{
    match k {
        SdlKeycode::Backspace => Some(NamedKey::Backspace),
        SdlKeycode::Delete => Some(NamedKey::Delete),
        SdlKeycode::Return => Some(NamedKey::Enter),
        SdlKeycode::Escape => Some(NamedKey::Escape),
        SdlKeycode::Up => Some(NamedKey::ArrowUp),
        SdlKeycode::Down => Some(NamedKey::ArrowDown),
        SdlKeycode::Left => Some(NamedKey::ArrowLeft),
        SdlKeycode::Right => Some(NamedKey::ArrowRight),
        SdlKeycode::F5 => None,
        SdlKeycode::Other => None,
    }
}

/// The web view's mouse button for an SDL mouse button.
pub fn pointer_button_for(b: SdlMouseButton) -> (p: PointerButton)
    ensures
        p == pointer_button(b),
{
    match b {
        SdlMouseButton::Left => PointerButton::Left,
        SdlMouseButton::Right => PointerButton::Right,
        SdlMouseButton::Middle => PointerButton::Middle,
        SdlMouseButton::X1 => PointerButton::Back,
        SdlMouseButton::X2 => PointerButton::Forward,
        SdlMouseButton::Unknown => PointerButton::Other(0),
    }
}

fn key_commands_for(state: KeyState, keycode: Option<SdlKeycode>) -> (v: Vec<InputCommand>)
    ensures
        v@ == key_commands(state, keycode),
{
    let mut v: Vec<InputCommand> = Vec::new();
    if let Some(k) = keycode {
        if let Some(n) = named_key_for(k) {
            v.push(InputCommand::Keyboard { state, key: KeyValue::Named(n) });
        }
    }
    assert(v@ =~= key_commands(state, keycode));
    v
}

/// Handles one window event: the loop's own reaction, and the input events
/// to send to the web view, in order.
pub fn handle_event(e: SdlEvent) -> (r: (LoopAction, Vec<InputCommand>))
    ensures
        r.0 == event_action(e),
        r.1@ == event_commands(e),
{
    let mut v: Vec<InputCommand> = Vec::new();
    match e {
        SdlEvent::Quit => {
            assert(v@ =~= event_commands(e));
            (LoopAction::Quit, v)
        },
        SdlEvent::MouseMotion { x, y } => {
            v.push(InputCommand::MouseMove { x, y });
            assert(v@ =~= event_commands(e));
            (LoopAction::Continue, v)
        },
        SdlEvent::MouseButtonDown { button, x, y } => {
            v.push(InputCommand::MouseButton { action: ButtonAction::Down, button: pointer_button_for(button), x, y });
            assert(v@ =~= event_commands(e));
            (LoopAction::Continue, v)
        },
        SdlEvent::MouseButtonUp { button, x, y } => {
            v.push(InputCommand::MouseButton { action: ButtonAction::Up, button: pointer_button_for(button), x, y });
            assert(v@ =~= event_commands(e));
            (LoopAction::Continue, v)
        },
        SdlEvent::MouseWheel { x, y } => {
            let xx: i64 = x as i64;
            let yy: i64 = y as i64;
            let dx: i64 = xx * 38;
            let dy_reversed: i64 = yy * 38;
            assert(dx == (wheel_step() * x) as i64);
            assert(dy_reversed == (wheel_step() * y) as i64);
            v.push(InputCommand::Wheel { dx, dy_reversed, at_x: 0, at_y: 0 });
            assert(v@ =~= event_commands(e));
            (LoopAction::Continue, v)
        },
        SdlEvent::TextInput { text } => {
            let down = text.clone();
            v.push(InputCommand::Keyboard { state: KeyState::Down, key: KeyValue::Character(down) });
            v.push(InputCommand::Keyboard { state: KeyState::Up, key: KeyValue::Character(text) });
            assert(v@ =~= event_commands(e));
            (LoopAction::Continue, v)
        },
        SdlEvent::KeyDown { keycode } => {
            let v = key_commands_for(KeyState::Down, keycode);
            match keycode {
                Some(SdlKeycode::F5) => (LoopAction::Reload, v),
                _ => (LoopAction::Continue, v),
            }
        },
        SdlEvent::KeyUp { keycode } => {
            let v = key_commands_for(KeyState::Up, keycode);
            (LoopAction::Continue, v)
        },
        SdlEvent::Other => {
            assert(v@ =~= event_commands(e));
            (LoopAction::Continue, v)
        },
    }
}

/// The named key a possibly unknown key code stands for, if any.
pub open spec fn keycode_key(keycode: Option<SdlKeycode>) -> Option<NamedKey> {
    match keycode {
        Some(k) => named_key(k),
        None => None,
    }
}

/// The key event for the named key `n` going to `state`.
pub open spec fn named_key_event(state: KeyState, n: NamedKey) -> InputCommand {
    InputCommand::Keyboard { state, key: KeyValue::Named(n) }
}

/// Releasing a key sends the same key its press sent, only going up; F5,
/// which reloads the page when pressed, sends no key event either way.
pub proof fn lemma_key_release_mirrors_press(keycode: Option<SdlKeycode>)
    ensures
        keycode_key(keycode) matches Some(n) ==> event_commands(SdlEvent::KeyDown { keycode })
            == seq![named_key_event(KeyState::Down, n)] && event_commands(
            SdlEvent::KeyUp { keycode },
        ) == seq![named_key_event(KeyState::Up, n)],
        keycode_key(keycode) is None ==> event_commands(SdlEvent::KeyDown { keycode }).len() == 0
            && event_commands(SdlEvent::KeyUp { keycode }).len() == 0,
        keycode == Some(SdlKeycode::F5) ==> keycode_key(keycode) is None && event_action(
            SdlEvent::KeyDown { keycode },
        ) == LoopAction::Reload && event_action(SdlEvent::KeyUp { keycode }) == LoopAction::Continue,
{
}

/// Pressing and releasing a mouse button report the same button at the
/// same place.
pub proof fn lemma_button_release_mirrors_press(button: SdlMouseButton, x: i32, y: i32)
    ensures
        event_commands(SdlEvent::MouseButtonDown { button, x, y }) == seq![
            InputCommand::MouseButton { action: ButtonAction::Down, button: pointer_button(button), x, y },
        ],
        event_commands(SdlEvent::MouseButtonUp { button, x, y }) == seq![
            InputCommand::MouseButton { action: ButtonAction::Up, button: pointer_button(button), x, y },
        ],
        pointer_button(button) != PointerButton::Other(0) <==> button != SdlMouseButton::Unknown,
{
}

/// Typed text goes to the web view as one key press and release of the
/// same text; a wheel notch scrolls 38 pixels, the vertical direction
/// reversed.
pub proof fn lemma_text_and_wheel(text: String, x: i32, y: i32)
    ensures
        event_commands(SdlEvent::TextInput { text }).len() == 2,
        event_commands(SdlEvent::TextInput { text })[0] == (InputCommand::Keyboard {
            state: KeyState::Down,
            key: KeyValue::Character(text),
        }),
        event_commands(SdlEvent::TextInput { text })[1] == (InputCommand::Keyboard {
            state: KeyState::Up,
            key: KeyValue::Character(text),
        }),
        event_commands(SdlEvent::MouseWheel { x, y }) == seq![
            (InputCommand::Wheel { dx: (38 * x) as i64, dy_reversed: (38 * y) as i64, at_x: 0, at_y: 0 }),
        ],
{
}

/// Each SDL mouse button reaches the web view as the button of the same
/// name (the extra buttons X1 and X2 as Back and Forward); distinct buttons
/// stay distinct, and only an unknown button becomes `Other(0)`.
pub proof fn lemma_buttons_keep_their_names()
    ensures
        pointer_button(SdlMouseButton::Left) == PointerButton::Left,
        pointer_button(SdlMouseButton::Right) == PointerButton::Right,
        pointer_button(SdlMouseButton::Middle) == PointerButton::Middle,
        pointer_button(SdlMouseButton::X1) == PointerButton::Back,
        pointer_button(SdlMouseButton::X2) == PointerButton::Forward,
        pointer_button(SdlMouseButton::Unknown) == PointerButton::Other(0),
        forall|a: SdlMouseButton, b: SdlMouseButton|
            pointer_button(a) == pointer_button(b) ==> a == b,
{
}

/// Each SDL key the port knows reaches the web view as the key of the same
/// meaning; distinct keys stay distinct, and F5 and unknown keys send no key.
pub proof fn lemma_keys_keep_their_meaning()
    ensures
        named_key(SdlKeycode::Backspace) == Some(NamedKey::Backspace),
        named_key(SdlKeycode::Delete) == Some(NamedKey::Delete),
        named_key(SdlKeycode::Return) == Some(NamedKey::Enter),
        named_key(SdlKeycode::Escape) == Some(NamedKey::Escape),
        named_key(SdlKeycode::Up) == Some(NamedKey::ArrowUp),
        named_key(SdlKeycode::Down) == Some(NamedKey::ArrowDown),
        named_key(SdlKeycode::Left) == Some(NamedKey::ArrowLeft),
        named_key(SdlKeycode::Right) == Some(NamedKey::ArrowRight),
        named_key(SdlKeycode::F5) is None,
        named_key(SdlKeycode::Other) is None,
        forall|a: SdlKeycode, b: SdlKeycode|
            named_key(a) is Some && named_key(a) == named_key(b) ==> a == b,
{
}

/// The loop quits only when the window closes and reloads only when F5 is
/// pressed; every other event lets it go on.
pub proof fn lemma_loop_actions(e: SdlEvent)
    ensures
        event_action(e) == LoopAction::Quit <==> e is Quit,
        event_action(e) == LoopAction::Reload <==> (e matches SdlEvent::KeyDown { keycode } && keycode
            == Some(SdlKeycode::F5)),
        event_action(e) == LoopAction::Continue <==> !(e is Quit) && !(e matches SdlEvent::KeyDown {
            keycode,
        } && keycode == Some(SdlKeycode::F5)),
{
}

/// A pressed or released key that the port knows sends exactly one key
/// event, going the same way, naming that key; window closing and unknown
/// events send nothing.
pub proof fn lemma_one_key_event_per_known_key(state: KeyState, k: SdlKeycode)
    ensures
        named_key(k) matches Some(n) ==> key_commands(state, Some(k)) == seq![
            named_key_event(state, n),
        ],
        named_key(k) is None ==> key_commands(state, Some(k)).len() == 0,
        key_commands(state, None).len() == 0,
        event_commands(SdlEvent::Quit).len() == 0,
        event_commands(SdlEvent::Other).len() == 0,
{
}

} // verus!
