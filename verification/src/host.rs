use vstd::prelude::*;
use crate::keys::{held_after, KeyState, law_held_after_press, law_released_after_release, law_input_leaves_other_keys};
use crate::script::Callback;

verus! {

/// A mouse button as the window system reports it.
#[derive(Clone, Copy, Debug, PartialEq, Eq, Structural)]
pub enum MouseButton {
    Left,
    Right,
    Middle,
    Back,
    Forward,
    Other(u16),
}

/// The number a script receives for a button: 1 to 5 for the named
/// buttons, 6 + n for the n-th other button.
pub open spec fn button_code_of(b: MouseButton) -> int {
    match b {
        MouseButton::Left => 1,
        MouseButton::Right => 2,
        MouseButton::Middle => 3,
        MouseButton::Back => 4,
        MouseButton::Forward => 5,
        MouseButton::Other(n) => 6 + n,
    }
}

/// The number of an other button is formed in 16 bits, so it must fit there.
pub open spec fn button_code_fits(b: MouseButton) -> bool {
    b matches MouseButton::Other(n) ==> n + 6 <= u16::MAX
}

/// The number a script receives for `button`.
pub fn button_code(button: MouseButton) -> (code: u32)
    requires
        button_code_fits(button),
    ensures
        code == button_code_of(button),
        button == MouseButton::Left ==> code == 1,
        button == MouseButton::Right ==> code == 2,
        button == MouseButton::Middle ==> code == 3,
        button == MouseButton::Back ==> code == 4,
        button == MouseButton::Forward ==> code == 5,
        forall|n: u16| button == MouseButton::Other(n) ==> code == 6 + n,
{
    match button {
        MouseButton::Left => 1,
        MouseButton::Right => 2,
        MouseButton::Middle => 3,
        MouseButton::Back => 4,
        MouseButton::Forward => 5,
        MouseButton::Other(num) => {
            let sum: u16 = 6 + num;
            sum as u32
        },
    }
}

/// The call that a button going down (`pressed`) or up makes into the
/// script, with the button's number.
pub fn mouse_button_call(button: MouseButton, pressed: bool) -> (call: (Callback, u32))
    requires
        button_code_fits(button),
    ensures
        call.0 == if pressed { Callback::MousePressed } else { Callback::MouseReleased },
        call.1 == button_code_of(button),
        button == MouseButton::Left ==> call.1 == 1,
        button == MouseButton::Right ==> call.1 == 2,
        button == MouseButton::Middle ==> call.1 == 3,
        button == MouseButton::Back ==> call.1 == 4,
        button == MouseButton::Forward ==> call.1 == 5,
        forall|n: u16| button == MouseButton::Other(n) ==> call.1 == 6 + n,
{
    let code = button_code(button);
    if pressed {
        (Callback::MousePressed, code)
    } else {
        (Callback::MouseReleased, code)
    }
}

/// Law: the named buttons are numbered 1 to 5 (left, right, middle, back,
/// forward) and the n-th other button is numbered n + 6, for every n whose
/// number fits in 16 bits.
pub proof fn law_button_numbers(n: u16)
    requires
        n + 6 <= u16::MAX,
    ensures
        button_code_of(MouseButton::Left) == 1,
        button_code_of(MouseButton::Right) == 2,
        button_code_of(MouseButton::Middle) == 3,
        button_code_of(MouseButton::Back) == 4,
        button_code_of(MouseButton::Forward) == 5,
        button_code_of(MouseButton::Other(n)) == n + 6,
        button_code_fits(MouseButton::Other(n)),
{
}

/// Law: consecutive other buttons get consecutive numbers, above the named ones.
pub proof fn law_other_buttons_consecutive(n: u16)
    requires
        n + 7 <= u16::MAX,
    ensures
        button_code_of(MouseButton::Other((n + 1) as u16)) == button_code_of(MouseButton::Other(n)) + 1,
        button_code_of(MouseButton::Other(n)) > button_code_of(MouseButton::Forward),
{
}

/// Law: distinct buttons get distinct numbers, and every number is at least 1.
pub proof fn law_button_codes_distinct(a: MouseButton, b: MouseButton)
    requires
        a != b,
    ensures
        button_code_of(a) != button_code_of(b),
        button_code_of(a) >= 1,
{
}

/// The text by which a key is recorded: the text the key produced, or
/// `NONE` for a key that produced none.
pub fn key_text(text: Option<String>) -> (key: String)
    ensures
        key@ == match text {
            Some(t) => t@,
            None => "NONE"@,
        },
{
    match text {
        Some(t) => t,
        None => String::from_str("NONE"),
    }
}

/// A question the script asks the main thread.
pub enum Query {
    /// The size of the window.
    WindowSize,
    /// Whether the key with this text is held.
    KeyPressed(String),
}

/// The main thread's answer to a query.
#[derive(Clone, Copy, Debug, PartialEq, Eq, Structural)]
pub enum Answer {
    WindowSize { w: u32, h: u32 },
    KeyPressed(bool),
}

impl Answer {
    /// The size carried by a window-size answer.
    pub fn window_size(&self) -> (size: Option<(u32, u32)>)
        ensures
            size == match *self {
                Answer::WindowSize { w, h } => Some((w, h)),
                _ => None::<(u32, u32)>,
            },
    {
        match *self {
            Answer::WindowSize { w, h } => Some((w, h)),
            _ => None,
        }
    }

    /// The state carried by a key answer.
    pub fn key_state(&self) -> (state: Option<bool>)
        ensures
            state == match *self {
                Answer::KeyPressed(b) => Some(b),
                _ => None::<bool>,
            },
    {
        match *self {
            Answer::KeyPressed(b) => Some(b),
            _ => None,
        }
    }
}

/// What a script waiting for an answer does with what it received.
#[derive(Clone, Copy, Debug, PartialEq, Eq)]
pub enum Wait<T> {
    /// Stop waiting with this value.
    Done(T),
    /// The answer was for another query: keep waiting.
    Keep,
}

/// One step of `lori.get.window.size` waiting for its answer: a window-size
/// answer ends the wait with its size; any other answer is skipped; a
/// closed channel (`None`) ends the wait with the size `(0, 0)`.
pub fn await_window_size(received: Option<Answer>) -> (step: Wait<(u32, u32)>)
    ensures
        step == match received {
            None => Wait::Done((0u32, 0u32)),
            Some(Answer::WindowSize { w, h }) => Wait::Done((w, h)),
            Some(_) => Wait::<(u32, u32)>::Keep,
        },
{
    match received {
        None => Wait::Done((0, 0)),
        Some(Answer::WindowSize { w, h }) => Wait::Done((w, h)),
        Some(_) => Wait::Keep,
    }
}

/// One step of `lori.get.key.state` waiting for its answer: a key answer
/// ends the wait with its state; any other answer is skipped; a closed
/// channel (`None`) ends the wait with `false`.
pub fn await_key_state(received: Option<Answer>) -> (step: Wait<bool>)
    ensures
        step == match received {
            None => Wait::Done(false),
            Some(Answer::KeyPressed(b)) => Wait::Done(b),
            Some(_) => Wait::<bool>::Keep,
        },
{
    match received {
        None => Wait::Done(false),
        Some(Answer::KeyPressed(b)) => Wait::Done(b),
        Some(_) => Wait::Keep,
    }
}

/// What the main thread knows that the script may ask for: the held keys
/// and the window's size.
pub struct HostModel {
    pub held: Seq<Seq<char>>,
    pub width: u32,
    pub height: u32,
}

/// The main thread's input state.
pub struct Host {
    keys: KeyState,
    width: u32,
    height: u32,
}

impl View for Host {
    type V = HostModel;

    closed spec fn view(&self) -> HostModel {
        HostModel { held: self.keys@, width: self.width, height: self.height }
    }
}

/// The state after a key went down (`pressed`) or up.
pub open spec fn after_key(m: HostModel, key: Seq<char>, pressed: bool) -> HostModel {
    HostModel { held: held_after(m.held, key, pressed), ..m }
}

/// The state after the window was resized.
pub open spec fn after_resize(m: HostModel, width: u32, height: u32) -> HostModel {
    HostModel { width, height, ..m }
}

/// The answer to a window-size query.
pub open spec fn size_answer(m: HostModel) -> Answer {
    Answer::WindowSize { w: m.width, h: m.height }
}

/// The answer to a query about the key with text `key`.
pub open spec fn key_answer(m: HostModel, key: Seq<char>) -> Answer {
    Answer::KeyPressed(m.held.contains(key))
}

impl Host {
    /// A window of the given size and no key held.
    pub fn new(width: u32, height: u32) -> (h: Host)
        ensures
            h@ == (HostModel { held: Seq::empty(), width, height }),
    {
        Host { keys: KeyState::new(), width, height }
    }

    /// Records the window's new size.
    pub fn resize(&mut self, width: u32, height: u32)
        ensures
            final(self)@ == after_resize(old(self)@, width, height),
    {
        self.width = width;
        self.height = height;
    }

    /// Records a key going down (`pressed`) or up, and gives the call to
    /// make into the script for it.
    pub fn key_input(&mut self, key: String, pressed: bool) -> (call: Callback)
        ensures
            final(self)@ == after_key(old(self)@, key@, pressed),
            call == if pressed { Callback::KeyPressed } else { Callback::KeyReleased },
    {
        self.keys.input(key, pressed);
        if pressed {
            Callback::KeyPressed
        } else {
            Callback::KeyReleased
        }
    }

    /// Answers a query of the script.
    pub fn answer(&self, query: &Query) -> (a: Answer)
        ensures
            a == match query {
                Query::WindowSize => size_answer(self@),
                Query::KeyPressed(key) => key_answer(self@, key@),
            },
    {
        match query {
            Query::WindowSize => Answer::WindowSize { w: self.width, h: self.height },
            Query::KeyPressed(key) => Answer::KeyPressed(self.keys.is_held(key)),
        }
    }
}

/// Law: asked about a key right after it went down or up, the main thread
/// answers with what that input said.
pub proof fn law_key_answer_after_input(m: HostModel, key: Seq<char>, pressed: bool)
    ensures
        key_answer(after_key(m, key, pressed), key) == Answer::KeyPressed(pressed),
{
    if pressed {
        law_held_after_press(m.held, key);
    } else {
        law_released_after_release(m.held, key);
    }
}

/// Law: an input on one key changes no answer about another key, nor the
/// window size.
pub proof fn law_key_input_changes_nothing_else(m: HostModel, key: Seq<char>, other: Seq<char>, pressed: bool)
    requires
        other != key,
    ensures
        key_answer(after_key(m, key, pressed), other) == key_answer(m, other),
        size_answer(after_key(m, key, pressed)) == size_answer(m),
{
    law_input_leaves_other_keys(m.held, key, other, pressed);
}

/// Law: asked for the window size right after a resize, the main thread
/// answers with the new size, and no key answer changes.
pub proof fn law_size_answer_after_resize(m: HostModel, width: u32, height: u32, key: Seq<char>)
    ensures
        size_answer(after_resize(m, width, height)) == (Answer::WindowSize { w: width, h: height }),
        key_answer(after_resize(m, width, height), key) == key_answer(m, key),
{
}

} // verus!
