//! The command-line front end: how values are shown in tables and messages,
//! its error type, its commands, and what each command asks to be done.
use vstd::prelude::*;
use vstd::string::*;
use crossterm::style::{Color, Stylize};
use crate::models::validation::{field_name, rule_code, FieldError, ValidationErrors};

verus! {

/// Shows an optional text: the text itself, or `None`.
pub fn format_option(value: &Option<String>) -> (res: String)
    ensures
        res@ == (match value {
            Some(s) => s@,
            None => "None"@,
        }),
{
    match value {
        Some(s) => s.clone(),
        None => String::from_str("None"),
    }
}

/// The forms in which crossterm writes a styled text: between the escape
/// codes that set the style (`start`) and reset it (`end`); with the colour
/// left out of those codes, when colours are turned off by `NO_COLOR`
/// (`start_plain`, `end_plain`); or nothing at all, on a Windows console that
/// takes no escape codes, where the styled content is handed to the console
/// API, which writes nothing into a string.
pub open spec fn styled_as(
    res: Seq<char>,
    text: Seq<char>,
    start: Seq<char>,
    end: Seq<char>,
    start_plain: Seq<char>,
    end_plain: Seq<char>,
) -> bool {
    ||| res == start + text + end
    ||| res == start_plain + text + end_plain
    ||| res.len() == 0
}

/// `text` in green: foreground colour 10 of the 256-colour palette, then the
/// foreground reset.
pub open spec fn in_green(res: Seq<char>, text: Seq<char>) -> bool {
    styled_as(res, text, "\x1b[38;5;10m"@, "\x1b[39m"@, "\x1b[m"@, "\x1b[m"@)
}

/// `text` in red: foreground colour 9 of the 256-colour palette, then the
/// foreground reset.
pub open spec fn in_red(res: Seq<char>, text: Seq<char>) -> bool {
    styled_as(res, text, "\x1b[38;5;9m"@, "\x1b[39m"@, "\x1b[m"@, "\x1b[m"@)
}

/// `text` in bold dark green: foreground colour 2 of the 256-colour palette
/// and the bold attribute, then a full reset.
pub open spec fn in_bold_dark_green(res: Seq<char>, text: Seq<char>) -> bool {
    styled_as(res, text, "\x1b[38;5;2m\x1b[1m"@, "\x1b[0m"@, "\x1b[m\x1b[1m"@, "\x1b[0m"@)
}

/// `Stylize::with(Color::Green)` then `to_string` (through the `Display` of
/// `StyledContent`, which writes `SetForegroundColor`, the text and
/// `SetForegroundColor(Color::Reset)`).
#[verifier::external_body]
fn paint_green(text: &str) -> (res: String)
    ensures
        in_green(res@, text@),
{
    text.with(Color::Green).to_string()
}

/// `Stylize::with(Color::Red)` then `to_string`, as `paint_green` does.
#[verifier::external_body]
fn paint_red(text: &str) -> (res: String)
    ensures
        in_red(res@, text@),
{
    text.with(Color::Red).to_string()
}

/// `Stylize::with(Color::DarkGreen)`, `Stylize::bold` then `to_string`: the
/// colour, the bold attribute, the text, then `ResetColor`, which crossterm
/// writes in place of the colour reset once an attribute was set.
#[verifier::external_body]
fn paint_dark_green_bold(text: &str) -> (res: String)
    ensures
        in_bold_dark_green(res@, text@),
{
    text.with(Color::DarkGreen).bold().to_string()
}

/// A check mark in green for a completed item, a cross in red otherwise.
pub fn color_bool(completed: &bool) -> (res: String)
    ensures
        if *completed {
            in_green(res@, "\u{2714}"@)
        } else {
            in_red(res@, "\u{2718}"@)
        },
{
    if *completed {
        paint_green("\u{2714}")
    } else {
        paint_red("\u{2718}")
    }
}

/// A title in bold dark green.
pub fn color_title(title: &str) -> (res: String)
    ensures
        in_bold_dark_green(res@, title@),
{
    paint_dark_green_bold(title)
}

/// One entry of a validation message: the field and the list of its codes.
pub open spec fn violation_entry(e: FieldError) -> Seq<char> {
    field_name(e.field) + ": [\""@ + rule_code(e.rule) + "\"]"@
}

/// The entries of all violations, separated by commas.
pub open spec fn validation_message(errs: Seq<FieldError>) -> Seq<char>
    decreases errs.len(),
{
    if errs.len() == 0 {
        ""@
    } else if errs.len() == 1 {
        violation_entry(errs[0])
    } else {
        validation_message(errs.drop_last()) + ", "@ + violation_entry(errs.last())
    }
}

/// The errors of the command-line tool; failures of outside parts carry
/// the text those parts reported.
#[derive(Debug, Clone, PartialEq, Eq)]
pub enum Errors {
    Io(String),
    Uuid(String),
    Fas(String),
    Sqlx(String),
    Validation(String),
    SerdeJson(String),
}

/// The text each error is shown as.
pub open spec fn errors_text(e: Errors) -> Seq<char> {
    match e {
        Errors::Io(m) => "error: id is wrong "@ + m@,
        Errors::Uuid(m) => "error: id is wrong "@ + m@,
        Errors::Fas(m) => "SQLX error111 "@ + m@,
        Errors::Sqlx(m) => "SQLX error "@ + m@,
        Errors::Validation(m) => "Custom Validation error: "@ + m@,
        Errors::SerdeJson(m) => m@,
    }
}

fn prefixed(prefix: &str, m: &String) -> (res: String)
    ensures
        res@ == prefix@ + m@,
{
    let mut s = String::from_str(prefix);
    s.append(m.as_str());
    s
}

impl Errors {
    /// The text the error is shown as.
    pub fn to_string(&self) -> (res: String)
        ensures
            res@ == errors_text(*self),
    {
        match self {
            Errors::Io(m) => prefixed("error: id is wrong ", m),
            Errors::Uuid(m) => prefixed("error: id is wrong ", m),
            Errors::Fas(m) => prefixed("SQLX error111 ", m),
            Errors::Sqlx(m) => prefixed("SQLX error ", m),
            Errors::Validation(m) => prefixed("Custom Validation error: ", m),
            Errors::SerdeJson(m) => m.clone(),
        }
    }

    /// The validation error for a set of violations: each violated field
    /// with its rule codes, separated by commas.
    pub fn from_validation(error: &ValidationErrors) -> (res: Errors)
        ensures
            res matches Errors::Validation(m) && m@ == validation_message(error.errors@),
    {
        let n = error.errors.len();
        let mut message = String::new();
        let mut i: usize = 0;
        proof {
            reveal_strlit("");
            assert(message@ =~= validation_message(error.errors@.take(0)));
        }
        while i < n
            invariant
                n == error.errors@.len(),
                i <= n,
                message@ == validation_message(error.errors@.take(i as int)),
            decreases n - i,
        {
            let e = error.errors[i];
            let ghost before = error.errors@.take(i as int);
            let ghost start = message@;
            proof {
                reveal_strlit("");
                if i == 0 {
                    assert(start =~= Seq::<char>::empty());
                }
            }
            assert(error.errors@.take(i + 1).drop_last() =~= before);
            if i > 0 {
                message.append(", ");
            }
            message.append(e.field.name());
            message.append(": [\"");
            message.append(e.rule.code());
            message.append("\"]");
            proof {
                if i == 0 {
                    assert(message@ =~= violation_entry(e));
                } else {
                    assert(message@ =~= validation_message(before) + ", "@ + violation_entry(e));
                }
            }
            i = i + 1;
        }
        assert(error.errors@.take(n as int) =~= error.errors@);
        Errors::Validation(message)
    }
}

} // verus!
