use vstd::prelude::*;
use crate::matcher::same_text;

verus! {

/// The severities of the log stream, from the most to the least important.
#[derive(Clone, Copy, Debug, PartialEq, Eq, Structural)]
pub enum LogLevel {
    Error,
    Info,
    Warning,
    Debug,
}

/// The position of a level in the order Error, Info, Warning, Debug.
pub open spec fn rank(l: LogLevel) -> int {
    match l {
        LogLevel::Error => 0,
        LogLevel::Info => 1,
        LogLevel::Warning => 2,
        LogLevel::Debug => 3,
    }
}

/// What `str::to_lowercase` makes of a text.
pub uninterp spec fn lower_of(s: Seq<char>) -> Seq<char>;

/// What `str::trim` makes of a text.
pub uninterp spec fn trim_of(s: Seq<char>) -> Seq<char>;

/// Relies on `str::to_lowercase`: its result depends on the characters alone.
#[verifier::external_body]
fn lowercase(s: &str) -> (r: String)
    ensures
        r@ == lower_of(s@),
{
    s.to_lowercase()
}

/// Relies on `str::trim`: its result depends on the characters alone.
#[verifier::external_body]
fn trimmed(s: &str) -> (r: &str)
    ensures
        r@ == trim_of(s@),
{
    s.trim()
}

/// The level that a lower-case name stands for; an unknown name stands for `Error`.
pub open spec fn level_named_spec(s: Seq<char>) -> LogLevel {
    if s == "info"@ {
        LogLevel::Info
    } else if s == "warning"@ {
        LogLevel::Warning
    } else if s == "debug"@ {
        LogLevel::Debug
    } else {
        LogLevel::Error
    }
}

/// The answer that a trimmed, lower-case reply gives to a yes/no question.
pub open spec fn yes_no_spec(s: Seq<char>) -> Option<bool> {
    if s == "y"@ || s == "yes"@ {
        Some(true)
    } else if s == "n"@ || s == "no"@ {
        Some(false)
    } else {
        None
    }
}

impl LogLevel {
    /// The names offered for the level on the command line.
    pub fn variants() -> (r: Vec<&'static str>)
        ensures
            r@.len() == 4,
            r@[0]@ == "error"@,
            r@[1]@ == "log"@,
            r@[2]@ == "warning"@,
            r@[3]@ == "debug"@,
    {
        vec!["error", "log", "warning", "debug"]
    }

    /// The level that a lower-case name stands for.
    pub fn level_named(s: &str) -> (r: LogLevel)
        ensures
            r == level_named_spec(s@),
    {
        if same_text(s, "info") {
            LogLevel::Info
        } else if same_text(s, "warning") {
            LogLevel::Warning
        } else if same_text(s, "debug") {
            LogLevel::Debug
        } else {
            LogLevel::Error
        }
    }

    /// The level that a name stands for, whatever its case.
    pub fn from_name(s: &str) -> (r: LogLevel)
        ensures
            r == level_named_spec(lower_of(s@)),
    {
        let lower = lowercase(s);
        LogLevel::level_named(lower.as_str())
    }

    /// Whether a message of severity `msg` is shown when `self` is the minimum
    /// verbosity.
    pub fn shows(self, msg: LogLevel) -> (r: bool)
        ensures
            r == (rank(msg) <= rank(self)),
    {
        let a: u8 = match msg {
            LogLevel::Error => 0,
            LogLevel::Info => 1,
            LogLevel::Warning => 2,
            LogLevel::Debug => 3,
        };
        let b: u8 = match self {
            LogLevel::Error => 0,
            LogLevel::Info => 1,
            LogLevel::Warning => 2,
            LogLevel::Debug => 3,
        };
        a <= b
    }
}

/// The answer that a trimmed, lower-case reply gives to a yes/no question:
/// `y` or `yes` is yes, `n` or `no` is no, anything else is no answer.
pub fn yes_no(s: &str) -> (r: Option<bool>)
    ensures
        r == yes_no_spec(s@),
{
    if same_text(s, "y") || same_text(s, "yes") {
        Some(true)
    } else if same_text(s, "n") || same_text(s, "no") {
        Some(false)
    } else {
        None
    }
}

/// The answer that an operator's reply gives to a yes/no question, after
/// surrounding whitespace is removed and case is ignored.
pub fn get_yn(input: &str) -> (r: Option<bool>)
    ensures
        r == yes_no_spec(lower_of(trim_of(input@))),
{
    let t = trimmed(input);
    let lower = lowercase(t);
    yes_no(lower.as_str())
}

} // verus!
