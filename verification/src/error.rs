//! What can be wrong with a keyfile, and how it is reported.

use vstd::prelude::*;
use vstd::string::StringExecFns;

verus! {

/// A keyfile line that stops the keymap from being built. Lines are counted
/// from one, and every line of the file counts.
#[derive(Debug, Clone, PartialEq, Eq)]
pub enum ConfigError {
    /// The line does not hold exactly one colon.
    MalformedLine { line: usize },
    /// The line names a command or a key that does not exist; `text` is the
    /// line as written.
    InvalidBinding { line: usize, text: String },
}

/// A `ConfigError` as a mathematical value.
pub enum SpecConfigError {
    MalformedLine { line: nat },
    InvalidBinding { line: nat, text: Seq<char> },
}

impl View for ConfigError {
    type V = SpecConfigError;

    open spec fn view(&self) -> SpecConfigError {
        match *self {
            ConfigError::MalformedLine { line } => SpecConfigError::MalformedLine {
                line: line as nat,
            },
            ConfigError::InvalidBinding { line, text } => SpecConfigError::InvalidBinding {
                line: line as nat,
                text: text@,
            },
        }
    }
}

/// The decimal digit for `d`, which is below ten.
pub open spec fn digit(d: nat) -> char {
    ('0' as nat + d) as char
}

/// `n` written in decimal, without leading zeros.
pub open spec fn decimal(n: nat) -> Seq<char>
    decreases n,
{
    if n < 10 {
        seq![digit(n)]
    } else {
        decimal(n / 10).push(digit(n % 10))
    }
}

/// The report for `error`: what is wrong, the line's number, and for an
/// unknown name the line itself.
pub open spec fn message_of(error: SpecConfigError) -> Seq<char> {
    match error {
        SpecConfigError::MalformedLine { line } => "expected exactly one colon on line "@
            + decimal(line),
        SpecConfigError::InvalidBinding { line, text } => "invalid config at line "@ + decimal(
            line,
        ) + ": "@ + text,
    }
}

/// The one-character text of the decimal digit `d`.
fn digit_text(d: usize) -> (text: &'static str)
    requires
        d < 10,
    ensures
        text@ == seq![digit(d as nat)],
{
    proof {
        reveal_strlit("0");
        reveal_strlit("1");
        reveal_strlit("2");
        reveal_strlit("3");
        reveal_strlit("4");
        reveal_strlit("5");
        reveal_strlit("6");
        reveal_strlit("7");
        reveal_strlit("8");
        reveal_strlit("9");
    }
    let text = if d == 0 {
        "0"
    } else if d == 1 {
        "1"
    } else if d == 2 {
        "2"
    } else if d == 3 {
        "3"
    } else if d == 4 {
        "4"
    } else if d == 5 {
        "5"
    } else if d == 6 {
        "6"
    } else if d == 7 {
        "7"
    } else if d == 8 {
        "8"
    } else {
        "9"
    };
    text
}

/// Appends `n` in decimal to `out`.
pub fn append_decimal(out: &mut String, n: usize)
    ensures
        final(out)@ == old(out)@ + decimal(n as nat),
    decreases n,
{
    if n >= 10 {
        append_decimal(out, n / 10);
    }
    out.append(digit_text(n % 10));
}

impl ConfigError {
    /// The number of the offending line, counted from one.
    pub fn line(&self) -> (n: usize)
        ensures
            n == match self@ {
                SpecConfigError::MalformedLine { line } => line,
                SpecConfigError::InvalidBinding { line, .. } => line,
            },
    {
        match self {
            ConfigError::MalformedLine { line } => *line,
            ConfigError::InvalidBinding { line, .. } => *line,
        }
    }

    /// The report to show to the user.
    pub fn message(&self) -> (text: String)
        ensures
            text@ == message_of(self@),
    {
        match self {
            ConfigError::MalformedLine { line } => {
                let mut text = String::from_str("expected exactly one colon on line ");
                append_decimal(&mut text, *line);
                text
            },
            ConfigError::InvalidBinding { line, text: written } => {
                let mut text = String::from_str("invalid config at line ");
                append_decimal(&mut text, *line);
                text.append(": ");
                text.append(written.as_str());
                text
            },
        }
    }
}

} // verus!
