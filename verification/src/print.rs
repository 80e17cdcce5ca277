use vstd::prelude::*;
use colored::Colorize;
use vstd::string::to_string_from_display_ensures;

verus! {

/// The I/O error type of std, carried opaquely so that its message can be logged.
#[verifier::external_type_specification]
#[verifier::external_body]
pub struct ExIoError(std::io::Error);

/// The background colour of the badge that opens a log line.
#[derive(Clone, Copy, Debug, PartialEq, Eq, Structural)]
pub enum Backdrop {
    Green,
    Yellow,
    BrightRed,
    Purple,
    Blue,
}

/// The stream a log line goes to.
#[derive(Clone, Copy, Debug, PartialEq, Eq, Structural)]
pub enum Stream {
    Out,
    Error,
}

/// A line ready to be written: where it goes and what it says.
pub struct LogLine {
    pub stream: Stream,
    pub text: String,
}

/// The SGR background code of a backdrop.
pub open spec fn backdrop_code(b: Backdrop) -> Seq<char> {
    match b {
        Backdrop::Green => seq!['4', '2'],
        Backdrop::Yellow => seq!['4', '3'],
        Backdrop::BrightRed => seq!['1', '0', '1'],
        Backdrop::Purple => seq!['4', '5'],
        Backdrop::Blue => seq!['4', '4'],
    }
}

/// A bold, black-on-`b` space framed by its escape sequences.
pub open spec fn ansi_badge(b: Backdrop) -> Seq<char> {
    seq!['\x1b', '[', '1', ';'] + backdrop_code(b) + seq![';', '3', '0', 'm', ' ', '\x1b', '[', '0', 'm']
}

/// What a badge can render as: the plain space when colours are off,
/// the escaped one when they are on.
pub open spec fn is_badge(b: Backdrop, s: Seq<char>) -> bool {
    s == seq![' '] || s == ansi_badge(b)
}

/// The text of a log line: a badge, two spaces, the message.
pub open spec fn is_log_text(b: Backdrop, line: Seq<char>, message: Seq<char>) -> bool {
    exists|badge: Seq<char>| is_badge(b, badge) && line == badge + seq![' ', ' '] + message
}

/// The text of a log line rendered with the plain badge (`colored` false)
/// or with the escaped one.
pub open spec fn log_text(b: Backdrop, colored: bool, message: Seq<char>) -> Seq<char> {
    (if colored { ansi_badge(b) } else { seq![' '] }) + seq![' ', ' '] + message
}

/// Law: a log line is one of exactly two texts, its plain rendering and its
/// coloured one, and these two differ.
pub proof fn law_log_text_renderings(b: Backdrop, line: Seq<char>, message: Seq<char>)
    requires
        is_log_text(b, line, message),
    ensures
        line == log_text(b, false, message) || line == log_text(b, true, message),
        log_text(b, false, message) != log_text(b, true, message),
{
    let badge = choose|badge: Seq<char>| is_badge(b, badge) && line == badge + seq![' ', ' '] + message;
    if badge == seq![' '] {
        assert(line =~= log_text(b, false, message));
    } else {
        assert(line =~= log_text(b, true, message));
    }
    assert(log_text(b, false, message).len() != log_text(b, true, message).len());
}

/// Law: two log lines of the same backdrop and message that are rendered
/// the same way (both coloured or both plain) are the same text. So
/// `serorln(s)` writes what `erorln(s)` writes, `errorln(e)` what `serorln`
/// of the error's message writes, and `sdbugln(s)` what `dbugln(s)` writes,
/// to the same stream, whenever colours are on for both calls or off for both.
pub proof fn law_same_level_same_line(b: Backdrop, message: Seq<char>, first: Seq<char>, second: Seq<char>)
    requires
        is_log_text(b, first, message),
        is_log_text(b, second, message),
        (first == log_text(b, true, message)) == (second == log_text(b, true, message)),
    ensures
        first == second,
{
    law_log_text_renderings(b, first, message);
    law_log_text_renderings(b, second, message);
}

/// Renders `" ".black().on_color(..).bold()` of the `colored` crate with `format!`.
/// Whether `colored` emits escape codes depends on the environment
/// (`CLICOLOR`, `NO_COLOR`, a manual override), so the contract admits both
/// renderings: the bare space, or `ESC[1;<bg>;30m` + space + `ESC[0m`.
#[verifier::external_body]
fn colored_badge(backdrop: Backdrop) -> (badge: String)
    ensures
        is_badge(backdrop, badge@),
{
    let color = match backdrop {
        Backdrop::Green => colored::Color::Green,
        Backdrop::Yellow => colored::Color::Yellow,
        Backdrop::BrightRed => colored::Color::BrightRed,
        Backdrop::Purple => colored::Color::Magenta,
        Backdrop::Blue => colored::Color::Blue,
    };
    format!("{}", " ".black().on_color(color).bold())
}

fn compose(stream: Stream, backdrop: Backdrop, message: &str) -> (line: LogLine)
    ensures
        line.stream == stream,
        is_log_text(backdrop, line.text@, message@),
{
    let badge = colored_badge(backdrop);
    let ghost b = badge@;
    let text = badge.concat("  ").concat(message);
    proof {
        reveal_strlit("  ");
        assert(text@ == b + seq![' ', ' '] + message@);
    }
    LogLine { stream, text }
}

/// An informational line for standard output, on a green badge.
pub fn infoln(text: &str) -> (line: LogLine)
    ensures
        line.stream == Stream::Out,
        is_log_text(Backdrop::Green, line.text@, text@),
{
    compose(Stream::Out, Backdrop::Green, text)
}

/// A warning line for standard output, on a yellow badge.
pub fn warnln(text: &str) -> (line: LogLine)
    ensures
        line.stream == Stream::Out,
        is_log_text(Backdrop::Yellow, line.text@, text@),
{
    compose(Stream::Out, Backdrop::Yellow, text)
}

/// An error line for standard error, on a bright red badge.
pub fn erorln(text: &str) -> (line: LogLine)
    ensures
        line.stream == Stream::Error,
        is_log_text(Backdrop::BrightRed, line.text@, text@),
{
    compose(Stream::Error, Backdrop::BrightRed, text)
}

/// An error line for standard error that carries the message of an I/O error.
pub fn errorln(err: &std::io::Error) -> (line: LogLine)
    ensures
        line.stream == Stream::Error,
        exists|m: String|
            to_string_from_display_ensures::<std::io::Error>(err, m)
            && is_log_text(Backdrop::BrightRed, line.text@, m@),
{
    let message = err.to_string();
    compose(Stream::Error, Backdrop::BrightRed, message.as_str())
}

/// An error line for standard error with an owned message.
pub fn serorln(err: String) -> (line: LogLine)
    ensures
        line.stream == Stream::Error,
        is_log_text(Backdrop::BrightRed, line.text@, err@),
{
    compose(Stream::Error, Backdrop::BrightRed, err.as_str())
}

/// A debug line for standard output, on a purple badge.
pub fn dbugln(text: &str) -> (line: LogLine)
    ensures
        line.stream == Stream::Out,
        is_log_text(Backdrop::Purple, line.text@, text@),
{
    compose(Stream::Out, Backdrop::Purple, text)
}

/// A debug line for standard output with an owned message.
pub fn sdbugln(text: String) -> (line: LogLine)
    ensures
        line.stream == Stream::Out,
        is_log_text(Backdrop::Purple, line.text@, text@),
{
    compose(Stream::Out, Backdrop::Purple, text.as_str())
}

/// A verbose line for standard output, on a blue badge.
pub fn vbosln(text: &str) -> (line: LogLine)
    ensures
        line.stream == Stream::Out,
        is_log_text(Backdrop::Blue, line.text@, text@),
{
    compose(Stream::Out, Backdrop::Blue, text)
}

} // verus!
