use vstd::prelude::*;
use crate::print::{vbosln, serorln, is_log_text, Backdrop, LogLine, Stream};

verus! {

/// What the script thread reports back to the main thread once it has
/// handled a call.
#[derive(Clone, Copy, Debug, PartialEq, Eq, Structural)]
pub enum LoriToMainCall {
    Load,
    Keypressed,
    Keyreleased,
    Mousepressed,
    Mousereleased,
    MouseMoved,
    MouseScrolled,
    Draw,
    Render,
    GetWindowSize,
    Exit,
}

/// The calls the main thread makes into the script, one per callback
/// that a script may define in its `lori` table.
#[derive(Clone, Copy, Debug, PartialEq, Eq, Structural)]
pub enum Callback {
    Load,
    KeyPressed,
    KeyReleased,
    MousePressed,
    MouseReleased,
    MouseMoved,
    MouseScrolled,
    Update,
    Render,
    Exit,
}

/// The reply the script thread sends once it has handled `c`.
pub open spec fn reply_for(c: Callback) -> LoriToMainCall {
    match c {
        Callback::Load => LoriToMainCall::Load,
        Callback::KeyPressed => LoriToMainCall::Keypressed,
        Callback::KeyReleased => LoriToMainCall::Keyreleased,
        Callback::MousePressed => LoriToMainCall::Mousepressed,
        Callback::MouseReleased => LoriToMainCall::Mousereleased,
        Callback::MouseMoved => LoriToMainCall::MouseMoved,
        Callback::MouseScrolled => LoriToMainCall::MouseScrolled,
        Callback::Update => LoriToMainCall::Draw,
        Callback::Render => LoriToMainCall::Render,
        Callback::Exit => LoriToMainCall::Exit,
    }
}

/// The key under which a script defines the callback in its `lori` table.
pub open spec fn lua_name_of(c: Callback) -> Seq<char> {
    match c {
        Callback::Load => "load"@,
        Callback::KeyPressed => "keypressed"@,
        Callback::KeyReleased => "keyreleased"@,
        Callback::MousePressed => "mousepressed"@,
        Callback::MouseReleased => "mousereleased"@,
        Callback::MouseMoved => "mousemoved"@,
        Callback::MouseScrolled => "mousescrolled"@,
        Callback::Update => "update"@,
        Callback::Render => "render"@,
        Callback::Exit => "exit"@,
    }
}

/// The name under which a verbose run reports the callback as loaded.
pub open spec fn label_of(c: Callback) -> Seq<char> {
    match c {
        Callback::Load => "Load"@,
        Callback::KeyPressed => "KeyPressed"@,
        Callback::KeyReleased => "KeyReleased"@,
        Callback::MousePressed => "MousePressed"@,
        Callback::MouseReleased => "MouseReleased"@,
        Callback::MouseMoved => "MouseMoved"@,
        Callback::MouseScrolled => "MouseScrolled"@,
        Callback::Update => "Update"@,
        Callback::Render => "Render"@,
        Callback::Exit => "Exit"@,
    }
}

/// The message of a verbose run for a callback it found.
pub open spec fn loaded_message(c: Callback) -> Seq<char> {
    "Loaded function '"@ + label_of(c) + "'"@
}

/// The order in which the callbacks are looked up after the script ran.
pub open spec fn lookup_order() -> Seq<Callback> {
    seq![
        Callback::Load,
        Callback::KeyPressed,
        Callback::KeyReleased,
        Callback::MousePressed,
        Callback::MouseReleased,
        Callback::MouseMoved,
        Callback::MouseScrolled,
        Callback::Update,
        Callback::Render,
        Callback::Exit,
    ]
}

impl Callback {
    /// All callbacks, in the order in which they are looked up.
    pub fn all() -> (v: Vec<Callback>)
        ensures
            v@ == lookup_order(),
    {
        vec![
            Callback::Load,
            Callback::KeyPressed,
            Callback::KeyReleased,
            Callback::MousePressed,
            Callback::MouseReleased,
            Callback::MouseMoved,
            Callback::MouseScrolled,
            Callback::Update,
            Callback::Render,
            Callback::Exit,
        ]
    }

    /// The key of the callback in the script's `lori` table.
    pub fn lua_name(self) -> (s: &'static str)
        ensures
            s@ == lua_name_of(self),
    {
        match self {
            Callback::Load => "load",
            Callback::KeyPressed => "keypressed",
            Callback::KeyReleased => "keyreleased",
            Callback::MousePressed => "mousepressed",
            Callback::MouseReleased => "mousereleased",
            Callback::MouseMoved => "mousemoved",
            Callback::MouseScrolled => "mousescrolled",
            Callback::Update => "update",
            Callback::Render => "render",
            Callback::Exit => "exit",
        }
    }

    /// The name of the callback in the messages of a verbose run.
    pub fn label(self) -> (s: &'static str)
        ensures
            s@ == label_of(self),
    {
        match self {
            Callback::Load => "Load",
            Callback::KeyPressed => "KeyPressed",
            Callback::KeyReleased => "KeyReleased",
            Callback::MousePressed => "MousePressed",
            Callback::MouseReleased => "MouseReleased",
            Callback::MouseMoved => "MouseMoved",
            Callback::MouseScrolled => "MouseScrolled",
            Callback::Update => "Update",
            Callback::Render => "Render",
            Callback::Exit => "Exit",
        }
    }

    /// The reply that tells the main thread that this call was handled.
    pub fn reply(self) -> (r: LoriToMainCall)
        ensures
            r == reply_for(self),
    {
        match self {
            Callback::Load => LoriToMainCall::Load,
            Callback::KeyPressed => LoriToMainCall::Keypressed,
            Callback::KeyReleased => LoriToMainCall::Keyreleased,
            Callback::MousePressed => LoriToMainCall::Mousepressed,
            Callback::MouseReleased => LoriToMainCall::Mousereleased,
            Callback::MouseMoved => LoriToMainCall::MouseMoved,
            Callback::MouseScrolled => LoriToMainCall::MouseScrolled,
            Callback::Update => LoriToMainCall::Draw,
            Callback::Render => LoriToMainCall::Render,
            Callback::Exit => LoriToMainCall::Exit,
        }
    }
}

/// What looking a callback up in the script's `lori` table gave.
#[derive(Clone, Copy, Debug, PartialEq, Eq, Structural)]
pub enum Found {
    /// A function.
    Function,
    /// Nothing (`nil`).
    Nil,
    /// A value of another type.
    Other,
}

/// Whether a lookup result counts as a successful load of the callback.
/// The `load` callback is read as an optional function, so a missing
/// entry reads successfully (as no function); every other callback is
/// read as a function, so only a function reads successfully.
pub open spec fn lookup_succeeds(c: Callback, found: Found) -> bool {
    found == Found::Function || (c == Callback::Load && found == Found::Nil)
}

/// The callbacks that a script defined.
pub struct Callbacks {
    defined: Vec<Callback>,
}

impl View for Callbacks {
    type V = Set<Callback>;

    closed spec fn view(&self) -> Set<Callback> {
        self.defined@.to_set()
    }
}

/// What to do with one call from the main thread.
pub struct Step {
    /// Run the script's callback (it is defined).
    pub invoke: bool,
    /// The reply to send back once the callback has run.
    pub reply: LoriToMainCall,
    /// Stop serving calls after this one.
    pub finish: bool,
}

/// What to do once the script's code has been run.
pub struct LoadOutcome {
    /// The line to log, if any.
    pub log: Option<LogLine>,
    /// The code to exit the process with, if it must stop.
    pub exit_code: Option<i32>,
}

impl Callbacks {
    /// No callback defined.
    pub fn new() -> (c: Callbacks)
        ensures
            c@ == Set::<Callback>::empty(),
    {
        let c = Callbacks { defined: Vec::new() };
        assert(c@ =~= Set::<Callback>::empty());
        c
    }

    /// Whether the script defined `c`.
    pub fn is_defined(&self, c: Callback) -> (b: bool)
        ensures
            b == self@.contains(c),
    {
        let n = self.defined.len();
        let mut i: usize = 0;
        while i < n
            invariant
                n == self.defined@.len(),
                i <= n,
                forall|j: int| 0 <= j < i ==> self.defined@[j] != c,
            decreases n - i,
        {
            if self.defined[i] == c {
                assert(self.defined@.contains(c));
                return true;
            }
            i = i + 1;
        }
        proof {
            if self.defined@.contains(c) {
                let k = choose|k: int| 0 <= k < self.defined@.len() && self.defined@[k] == c;
                assert(self.defined@[k] != c);
            }
        }
        false
    }

    /// Records what looking `c` up gave; with `verbose`, a successful lookup
    /// yields the line that reports it. Only a function defines the callback.
    pub fn on_lookup(&mut self, c: Callback, found: Found, verbose: bool) -> (log: Option<LogLine>)
        ensures
            final(self)@ == if found == Found::Function { old(self)@.insert(c) } else { old(self)@ },
            log is Some <==> (verbose && lookup_succeeds(c, found)),
            log matches Some(line) ==> line.stream == Stream::Out
                && is_log_text(Backdrop::Blue, line.text@, loaded_message(c)),
            found == Found::Function ==> final(self)@.contains(c),
            found == Found::Function && verbose ==> log is Some,
            c == Callback::Load && found == Found::Nil && verbose ==> log is Some,
            c != Callback::Load && found == Found::Nil ==> log is None,
            found == Found::Other ==> log is None,
            !verbose ==> log is None,
            found != Found::Function ==> final(self)@ == old(self)@,
    {
        if found == Found::Function {
            self.defined.push(c);
            proof {
                assert(final(self)@ =~= old(self)@.insert(c)) by {
                    assert(self.defined@ == old(self).defined@.push(c));
                    assert forall|x: Callback| self.defined@.contains(x) <==> (old(self).defined@.contains(x) || x == c) by {
                        if old(self).defined@.contains(x) {
                            let k = choose|k: int| 0 <= k < old(self).defined@.len() && old(self).defined@[k] == x;
                            assert(self.defined@[k] == x);
                        }
                        if x == c {
                            assert(self.defined@[self.defined@.len() - 1] == x);
                        }
                        if self.defined@.contains(x) && x != c {
                            let k = choose|k: int| 0 <= k < self.defined@.len() && self.defined@[k] == x;
                            assert(old(self).defined@[k] == x);
                        }
                    }
                }
            }
        }
        let succeeded = found == Found::Function || (c == Callback::Load && found == Found::Nil);
        if verbose && succeeded {
            let message = String::from_str("Loaded function '").concat(c.label()).concat("'");
            Some(vbosln(message.as_str()))
        } else {
            None
        }
    }

    /// What to do with a call from the main thread: run the callback if the
    /// script defined it, then send the matching reply; stop after `Exit`.
    pub fn dispatch(&self, call: Callback) -> (step: Step)
        ensures
            step.invoke == self@.contains(call),
            step.reply == reply_for(call),
            step.finish == (call == Callback::Exit),
    {
        Step { invoke: self.is_defined(call), reply: call.reply(), finish: call == Callback::Exit }
    }
}

/// What to do once the script's code ran with `result`: on success, a
/// verbose run reports it; on failure the error is logged and the process
/// exits with code 3.
pub fn on_load(result: Result<(), String>, verbose: bool) -> (out: LoadOutcome)
    ensures
        match result {
            Ok(()) => {
                &&& out.exit_code is None
                &&& (out.log is Some <==> verbose)
                &&& out.log matches Some(line) ==> line.stream == Stream::Out
                    && is_log_text(Backdrop::Blue, line.text@, "Successfully loaded code"@)
            },
            Err(e) => {
                &&& out.exit_code == Some(3i32)
                &&& out.log matches Some(line) && line.stream == Stream::Error
                    && is_log_text(Backdrop::BrightRed, line.text@, e@)
            },
        },
{
    match result {
        Ok(()) => {
            if verbose {
                LoadOutcome { log: Some(vbosln("Successfully loaded code")), exit_code: None }
            } else {
                LoadOutcome { log: None, exit_code: None }
            }
        },
        Err(e) => LoadOutcome { log: Some(serorln(e)), exit_code: Some(3) },
    }
}

/// The shapes a script can draw directly.
#[derive(Clone, Copy, Debug, PartialEq, Eq, Structural)]
pub enum PrimitiveKind {
    Rect,
    Circle,
    Line,
}

/// The label by which the primitive shader tells the shapes apart.
pub open spec fn label_code(k: PrimitiveKind) -> u32 {
    match k {
        PrimitiveKind::Rect => 0,
        PrimitiveKind::Circle => 1,
        PrimitiveKind::Line => 2,
    }
}

impl PrimitiveKind {
    /// The label by which the primitive shader tells the shapes apart.
    pub fn label(self) -> (l: u32)
        ensures
            l == label_code(self),
    {
        match self {
            PrimitiveKind::Rect => 0,
            PrimitiveKind::Circle => 1,
            PrimitiveKind::Line => 2,
        }
    }
}

/// Law: looking a callback up succeeds when a function is found, whichever
/// callback it is; finding nothing succeeds only for `load`; finding a value
/// of another type never succeeds.
pub proof fn law_lookup_success(c: Callback)
    ensures
        lookup_succeeds(c, Found::Function),
        lookup_succeeds(c, Found::Nil) == (c == Callback::Load),
        !lookup_succeeds(c, Found::Other),
{
}

/// Law: distinct calls are answered with distinct replies, so the main
/// thread can tell from a reply which call was handled.
pub proof fn law_replies_distinguish_calls(a: Callback, b: Callback)
    requires
        a != b,
    ensures
        reply_for(a) != reply_for(b),
{
}

/// Law: no call is ever answered with the window-size request.
pub proof fn law_reply_is_never_a_request(c: Callback)
    ensures
        reply_for(c) != LoriToMainCall::GetWindowSize,
{
}

} // verus!
