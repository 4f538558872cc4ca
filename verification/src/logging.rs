//! Log levels, as the configuration files name them.
use vstd::prelude::*;
use crate::json::{json_model, member, text, Json};
use vstd::string::StrSliceExecFns;

verus! {

/// The most verbose level at which messages are logged.
#[derive(Clone, Copy, Debug, PartialEq, Eq, Structural)]
pub enum LevelFilter {
    Off,
    Error,
    Warn,
    Info,
    Debug,
    Trace,
}

/// The lower-case form of an ASCII capital; every other character as it is.
pub open spec fn ascii_lower(c: char) -> char {
    if 'A' <= c && c <= 'Z' {
        ((c as u8 + 32) as u8) as char
    } else {
        c
    }
}

/// Whether two texts are the same but for the case of their ASCII letters.
pub open spec fn same_but_for_case(a: Seq<char>, b: Seq<char>) -> bool {
    &&& a.len() == b.len()
    &&& forall|i: int| 0 <= i < a.len() ==> ascii_lower(#[trigger] a[i]) == ascii_lower(b[i])
}

/// Gives [`ascii_lower`].
pub fn to_ascii_lower(c: char) -> (lower: char)
    ensures
        lower == ascii_lower(c),
{
    if 'A' <= c && c <= 'Z' {
        ((c as u8) + 32) as char
    } else {
        c
    }
}

/// Decides [`same_but_for_case`].
pub fn is_same_but_for_case(a: &str, b: &str) -> (same: bool)
    ensures
        same == same_but_for_case(a@, b@),
{
    let n = a.unicode_len();
    if b.unicode_len() != n {
        return false;
    }
    let mut i: usize = 0;
    while i < n
        invariant
            i <= n,
            n == a@.len(),
            n == b@.len(),
            forall|j: int| 0 <= j < i ==> ascii_lower(#[trigger] a@[j]) == ascii_lower(b@[j]),
        decreases n - i,
    {
        if to_ascii_lower(a.get_char(i)) != to_ascii_lower(b.get_char(i)) {
            return false;
        }
        i += 1;
    }
    true
}

impl LevelFilter {
    /// The level that a name stands for: one of `off`, `error`, `warn`,
    /// `info`, `debug` and `trace`, in letters of either case.
    pub open spec fn named(name: Seq<char>) -> Option<LevelFilter> {
        if same_but_for_case(name, "off"@) {
            Some(LevelFilter::Off)
        } else if same_but_for_case(name, "error"@) {
            Some(LevelFilter::Error)
        } else if same_but_for_case(name, "warn"@) {
            Some(LevelFilter::Warn)
        } else if same_but_for_case(name, "info"@) {
            Some(LevelFilter::Info)
        } else if same_but_for_case(name, "debug"@) {
            Some(LevelFilter::Debug)
        } else if same_but_for_case(name, "trace"@) {
            Some(LevelFilter::Trace)
        } else {
            None
        }
    }

    /// Reads a level from its name.
    pub fn parse(name: &String) -> (level: Option<LevelFilter>)
        ensures
            level == Self::named(name@),
    {
        let name = name.as_str();
        if is_same_but_for_case(name, "off") {
            Some(LevelFilter::Off)
        } else if is_same_but_for_case(name, "error") {
            Some(LevelFilter::Error)
        } else if is_same_but_for_case(name, "warn") {
            Some(LevelFilter::Warn)
        } else if is_same_but_for_case(name, "info") {
            Some(LevelFilter::Info)
        } else if is_same_but_for_case(name, "debug") {
            Some(LevelFilter::Debug)
        } else if is_same_but_for_case(name, "trace") {
            Some(LevelFilter::Trace)
        } else {
            None
        }
    }
}

/// The level stored under `logLevel`, or `Off` where the document has no
/// such member. `None` where the member is no name of a level.
pub open spec fn level_of_json(doc: Json) -> Option<LevelFilter> {
    match doc.member("logLevel"@) {
        Some(m) => match m.text() {
            Some(name) => LevelFilter::named(name),
            None => None,
        },
        None => Some(LevelFilter::Off),
    }
}

/// Reads the level stored under `logLevel`.
pub fn get_level(doc: &serde_json::Value) -> (level: Option<LevelFilter>)
    ensures
        level == level_of_json(json_model(*doc)),
{
    match member(doc, "logLevel") {
        Some(m) => match text(m) {
            Some(name) => {
                let name = name.to_owned();
                LevelFilter::parse(&name)
            },
            None => None,
        },
        None => Some(LevelFilter::Off),
    }
}

} // verus!
