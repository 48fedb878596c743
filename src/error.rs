//! The single error type of the library.
use vstd::prelude::*;
use vstd::string::*;

use crate::signal::SignalType;

verus! {

/// A failure reported by the operating system: its error number and message.
#[derive(Clone, Debug, PartialEq, Eq)]
pub struct OsError {
    pub code: i32,
    pub message: String,
}

/// Ctrl-C error.
#[derive(Clone, Debug, PartialEq, Eq)]
pub enum Error {
    /// Signal could not be found from the system.
    NoSuchSignal(SignalType),
    /// Ctrl-C signal handler already registered.
    MultipleHandlers,
    /// Unexpected system error.
    System(OsError),
    /// Lock poisoned, with the lock's own message.
    Poison(String),
    /// Other external error, kept as its message.
    Other(String),
}

/// Whether `c` ends a line.
pub open spec fn is_line_break(c: char) -> bool {
    c == '\n' || c == '\r'
}

/// `s` on one line: every line break becomes a space.
pub open spec fn one_line(s: Seq<char>) -> Seq<char> {
    s.map_values(|c: char| if is_line_break(c) { ' ' } else { c })
}

/// Whether `s` holds no line break.
pub open spec fn is_one_line(s: Seq<char>) -> bool {
    forall|i: int| 0 <= i < s.len() ==> !is_line_break(#[trigger] s[i])
}

/// The one-line description of an error: a fixed text for each kind, or, for
/// `Poison` and `Other`, the carried message with its line breaks made spaces,
/// unless that message is empty.
pub open spec fn description(e: Error) -> Seq<char> {
    match e {
        Error::NoSuchSignal(_) => "Signal could not be found from the system"@,
        Error::MultipleHandlers => "Ctrl-C signal handler already registered"@,
        Error::System(_) => "Unexpected system error"@,
        Error::Poison(m) => if m@.len() == 0 {
            "Lock poisoned"@
        } else {
            one_line(m@)
        },
        Error::Other(m) => if m@.len() == 0 {
            "Other external error"@
        } else {
            one_line(m@)
        },
    }
}

/// The underlying error's message, where the error wraps one.
pub open spec fn spec_cause(e: Error) -> Option<Seq<char>> {
    match e {
        Error::System(os) => Some(os.message@),
        Error::Other(m) => Some(m@),
        _ => None,
    }
}

/// Text that every rendered error starts with.
pub open spec fn rendered(e: Error) -> Seq<char> {
    "Ctrl-C error: "@ + description(e)
}

/// Copies `s` with each line break replaced by a space.
pub fn to_one_line(s: &str) -> (r: String)
    ensures
        r@ == one_line(s@),
{
    let len = s.unicode_len();
    let mut r = String::new();
    let mut start: usize = 0;
    let mut i: usize = 0;
    while i < len
        invariant
            len == s@.len(),
            start <= i <= len,
            r@ =~= one_line(s@.subrange(0, start as int)),
            forall|j: int| start <= j < i ==> !is_line_break(#[trigger] s@[j]),
        decreases len - i,
    {
        let c = s.get_char(i);
        if c == '\n' || c == '\r' {
            let seg = s.substring_char(start, i);
            r.append(seg);
            r.append(" ");
            proof {
                reveal_strlit(" ");
            }
            assert(" "@ =~= seq![' ']);
            assert(one_line(s@.subrange(0, i + 1)) =~= one_line(s@.subrange(0, start as int))
                + s@.subrange(start as int, i as int) + seq![' ']);
            start = i + 1;
        }
        i = i + 1;
    }
    let seg = s.substring_char(start, len);
    r.append(seg);
    assert(s@.subrange(0, len as int) =~= s@);
    assert(one_line(s@) =~= one_line(s@.subrange(0, start as int)) + s@.subrange(
        start as int,
        len as int,
    ));
    r
}

impl Error {
    /// Describes the error in one line.
    pub fn describe(&self) -> (r: String)
        ensures
            r@ == description(*self),
            r@.len() > 0,
            is_one_line(r@),
    {
        proof {
            lemma_descriptions_non_empty(*self);
        }
        match self {
            Error::NoSuchSignal(_) => "Signal could not be found from the system".to_owned(),
            Error::MultipleHandlers => "Ctrl-C signal handler already registered".to_owned(),
            Error::System(_) => "Unexpected system error".to_owned(),
            Error::Poison(msg) => {
                if msg.as_str().is_empty() {
                    "Lock poisoned".to_owned()
                } else {
                    to_one_line(msg.as_str())
                }
            },
            Error::Other(msg) => {
                if msg.as_str().is_empty() {
                    "Other external error".to_owned()
                } else {
                    to_one_line(msg.as_str())
                }
            },
        }
    }

    /// The message of the error this one wraps, for chained diagnostics.
    pub fn cause(&self) -> (r: Option<String>)
        ensures
            r matches Some(c) ==> spec_cause(*self) == Some(c@),
            r is None ==> spec_cause(*self) is None,
    {
        match self {
            Error::System(os) => Some(os.message.clone()),
            Error::Other(msg) => Some(msg.clone()),
            _ => None,
        }
    }

    /// Renders the error as `Ctrl-C error: <description>`.
    pub fn to_string(&self) -> (r: String)
        ensures
            r@ == rendered(*self),
            r@.len() > 0,
            is_one_line(r@),
    {
        proof {
            lemma_descriptions_non_empty(*self);
        }
        let d = self.describe();
        let mut r = String::from_str("Ctrl-C error: ");
        r.append(d.as_str());
        r
    }
}

impl From<OsError> for Error {
    fn from(e: OsError) -> (r: Error)
        ensures
            r == Error::System(e),
    {
        Error::System(e)
    }
}

impl vstd::std_specs::convert::FromSpecImpl<OsError> for Error {
    open spec fn obeys_from_spec() -> bool {
        true
    }

    open spec fn from_spec(e: OsError) -> Error {
        Error::System(e)
    }
}

/// Every error has a non-empty description on one line, and the rendered text
/// of an error is that description after a fixed one-line prefix; `System` and
/// `Other` errors always carry a cause.
pub proof fn lemma_descriptions_non_empty(e: Error)
    ensures
        description(e).len() > 0,
        is_one_line(description(e)),
        rendered(e).len() > description(e).len(),
        is_one_line(rendered(e)),
        (e is System || e is Other) ==> spec_cause(e) is Some,
{
    reveal_strlit("Signal could not be found from the system");
    reveal_strlit("Ctrl-C signal handler already registered");
    reveal_strlit("Unexpected system error");
    reveal_strlit("Lock poisoned");
    reveal_strlit("Other external error");
    reveal_strlit("Ctrl-C error: ");
    let d = description(e);
    assert(is_one_line(d));
    assert(is_one_line("Ctrl-C error: "@));
    assert(is_one_line(rendered(e))) by {
        assert forall|i: int| 0 <= i < rendered(e).len() implies !is_line_break(
            #[trigger] rendered(e)[i],
        ) by {
            if i >= "Ctrl-C error: "@.len() {
                assert(rendered(e)[i] == d[i - "Ctrl-C error: "@.len()]);
            }
        }
    }
}

} // verus!
