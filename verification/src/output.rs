//! The lines of the audit report: labels in colour, marks for success and
//! failure, and the tree that arranges them.

use vstd::prelude::*;
use vstd::string::*;

verus! {

/// The mark that stands before a step that succeeded.
pub const EMOJI_CHECK_MARK: &'static str = "\u{2705}";

/// The mark that stands before a step that failed.
pub const EMOJI_CROSS_MARK: &'static str = "\u{274C}";

pub const LOG_LABEL_OK: &'static str = "OK";

pub const LOG_LABEL_ERROR: &'static str = "ERROR";

pub const LOG_LABEL_WARN: &'static str = "WARN";

pub const LOG_LABEL_INFO: &'static str = "INFO";

pub const LOG_LABEL_FAIL: &'static str = "FAIL";

/// The ways in which the report draws text on a terminal.
#[derive(Clone, Copy, Debug, PartialEq, Eq, Structural)]
pub enum Paint {
    /// Green letters.
    Green,
    /// Red letters.
    Red,
    /// Letters of reduced intensity.
    Dimmed,
}

/// The escape sequence that switches `paint` on.
pub open spec fn start_code(paint: Paint) -> Seq<char> {
    match paint {
        Paint::Green => "\u{1b}[32m"@,
        Paint::Red => "\u{1b}[31m"@,
        Paint::Dimmed => "\u{1b}[2m"@,
    }
}

/// The escape sequence that switches every style off.
pub open spec fn end_code() -> Seq<char> {
    "\u{1b}[0m"@
}

/// `Display` of an `anstyle::Style`: the escape sequence that switches the
/// style on, which is that of its effect or of its foreground colour.
#[verifier::external_body]
fn paint_on(paint: Paint) -> (code: String)
    ensures
        code@ == start_code(paint),
{
    let style = match paint {
        Paint::Green => anstyle::Style::new().fg_color(
            Some(anstyle::Color::Ansi(anstyle::AnsiColor::Green)),
        ),
        Paint::Red => anstyle::Style::new().fg_color(
            Some(anstyle::Color::Ansi(anstyle::AnsiColor::Red)),
        ),
        Paint::Dimmed => anstyle::Style::new().dimmed(),
    };
    format!("{style}")
}

/// `Display` of an `anstyle::Style` in its alternate form: the escape
/// sequence that resets the terminal, which a style with a colour or an
/// effect writes whatever the colour or effect is.
#[verifier::external_body]
fn paint_off(paint: Paint) -> (code: String)
    ensures
        code@ == end_code(),
{
    let style = match paint {
        Paint::Green => anstyle::Style::new().fg_color(
            Some(anstyle::Color::Ansi(anstyle::AnsiColor::Green)),
        ),
        Paint::Red => anstyle::Style::new().fg_color(
            Some(anstyle::Color::Ansi(anstyle::AnsiColor::Red)),
        ),
        Paint::Dimmed => anstyle::Style::new().dimmed(),
    };
    format!("{style:#}")
}

/// `text` drawn in `paint`, with the terminal reset after it.
pub open spec fn painted(paint: Paint, text: Seq<char>) -> Seq<char> {
    start_code(paint) + text + end_code()
}

/// A log line: the label in `paint` between dimmed square brackets, a space
/// and the message.
pub open spec fn log_line(paint: Paint, label: Seq<char>, message: Seq<char>) -> Seq<char> {
    painted(Paint::Dimmed, "["@) + painted(paint, label) + painted(Paint::Dimmed, "]"@) + " "@
        + message
}

/// The label of a tree node: the label alone, or the label, the delimiter (a
/// colon where none is given), a space and the value.
pub open spec fn labelled(
    label: Seq<char>,
    value: Option<Seq<char>>,
    delimiter: Option<Seq<char>>,
) -> Seq<char> {
    match value {
        Some(value) => {
            let delimiter = match delimiter {
                Some(delimiter) => delimiter,
                None => ":"@,
            };
            label + delimiter + " "@ + value
        },
        None => label,
    }
}

fn append_painted(line: &mut String, paint: Paint, text: &str)
    ensures
        final(line)@ == old(line)@ + painted(paint, text@),
{
    let on = paint_on(paint);
    let off = paint_off(paint);
    line.append(on.as_str());
    line.append(text);
    line.append(off.as_str());
}

fn log(paint: Paint, label: &str, message: &str) -> (line: String)
    ensures
        line@ == log_line(paint, label@, message@),
{
    let mut line = String::new();
    append_painted(&mut line, Paint::Dimmed, "[");
    append_painted(&mut line, paint, label);
    append_painted(&mut line, Paint::Dimmed, "]");
    line.append(" ");
    line.append(message);
    line
}

/// The log line of a success: the label in green between dimmed brackets,
/// then the message.
pub fn get_ok_log(label: &str, message: &str) -> (line: String)
    ensures
        line@ == log_line(Paint::Green, label@, message@),
{
    log(Paint::Green, label, message)
}

/// The report line of a check that passed: the check mark, then the message.
pub fn get_check_ok_log(message: &str) -> (line: String)
    ensures
        line@ == EMOJI_CHECK_MARK@ + " "@ + message@,
{
    let mut line = EMOJI_CHECK_MARK.to_owned();
    line.append(" ");
    line.append(message);
    line
}

/// The log line of a failure: the label in red between dimmed brackets, then
/// the message.
pub fn get_error_log(label: &str, message: &str) -> (line: String)
    ensures
        line@ == log_line(Paint::Red, label@, message@),
{
    log(Paint::Red, label, message)
}

/// The report line of a check that failed: the cross mark, then the message.
pub fn get_check_error_log(message: &str) -> (line: String)
    ensures
        line@ == EMOJI_CROSS_MARK@ + " "@ + message@,
{
    let mut line = EMOJI_CROSS_MARK.to_owned();
    line.append(" ");
    line.append(message);
    line
}

/// The label of a tree node, with a value behind it where there is one.
pub fn node_label(label: &str, value: Option<&str>, delimiter: Option<&str>) -> (text: String)
    ensures
        text@ == labelled(
            label@,
            match value {
                Some(value) => Some(value@),
                None => None,
            },
            match delimiter {
                Some(delimiter) => Some(delimiter@),
                None => None,
            },
        ),
{
    match value {
        Some(value) => {
            let delimiter = match delimiter {
                Some(delimiter) => delimiter,
                None => ":",
            };
            let mut text = label.to_owned();
            text.append(delimiter);
            text.append(" ");
            text.append(value);
            text
        },
        None => label.to_owned(),
    }
}

} // verus!
