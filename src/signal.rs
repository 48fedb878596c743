//! Platform-neutral signal identifiers and their native (POSIX) numbers.
use vstd::prelude::*;

verus! {

/// Native number of the hang-up signal.
pub const SIGHUP: i32 = 1;

/// Native number of the interactive interrupt signal.
pub const SIGINT: i32 = 2;

/// Native number of the termination request signal.
pub const SIGTERM: i32 = 15;

/// Largest native number of a standard signal; standard signals are `1..=NATIVE_MAX`.
pub const NATIVE_MAX: i32 = 31;

/// One signal the library can count.
///
/// The named variants stand for the usual shutdown signals; `Other(n)` names any
/// further standard signal by its native number.
#[derive(Clone, Copy, Debug, PartialEq, Eq, Hash, Structural)]
pub enum SignalType {
    /// Interactive interrupt (Ctrl-C).
    Interrupt,
    /// Termination request.
    Terminate,
    /// Hang-up of the controlling terminal.
    Hangup,
    /// Another standard signal, by native number.
    Other(i32),
}

/// The signal that a native number stands for, if any: each standard signal
/// number has exactly one `SignalType`, the named variant where there is one.
pub open spec fn spec_from_native(n: i32) -> Option<SignalType> {
    if n == SIGINT {
        Some(SignalType::Interrupt)
    } else if n == SIGTERM {
        Some(SignalType::Terminate)
    } else if n == SIGHUP {
        Some(SignalType::Hangup)
    } else if 1 <= n <= NATIVE_MAX {
        Some(SignalType::Other(n))
    } else {
        None
    }
}

impl SignalType {
    /// The native number of this signal, or `None` where the platform has none
    /// for it: `Other(n)` is supported when `n` is a standard signal number that no
    /// named variant already stands for.
    pub open spec fn spec_native(self) -> Option<i32> {
        match self {
            SignalType::Interrupt => Some(SIGINT),
            SignalType::Terminate => Some(SIGTERM),
            SignalType::Hangup => Some(SIGHUP),
            SignalType::Other(n) => if 1 <= n <= NATIVE_MAX && n != SIGINT && n != SIGTERM
                && n != SIGHUP {
                Some(n)
            } else {
                None
            },
        }
    }

    /// Whether the platform knows this signal.
    pub open spec fn is_supported(self) -> bool {
        self.spec_native() is Some
    }

    /// Converts to the native signal number; `None` where the platform has none.
    pub fn to_native(self) -> (r: Option<i32>)
        ensures
            r == self.spec_native(),
    {
        match self {
            SignalType::Interrupt => Some(SIGINT),
            SignalType::Terminate => Some(SIGTERM),
            SignalType::Hangup => Some(SIGHUP),
            SignalType::Other(n) => {
                if 1 <= n && n <= NATIVE_MAX && n != SIGINT && n != SIGTERM && n != SIGHUP {
                    Some(n)
                } else {
                    None
                }
            },
        }
    }

    /// Converts a native signal number back; `None` for a number outside the
    /// standard range.
    pub fn from_native(n: i32) -> (r: Option<SignalType>)
        ensures
            r == spec_from_native(n),
            !(1 <= n <= NATIVE_MAX) ==> r is None,
    {
        if n == SIGINT {
            Some(SignalType::Interrupt)
        } else if n == SIGTERM {
            Some(SignalType::Terminate)
        } else if n == SIGHUP {
            Some(SignalType::Hangup)
        } else if 1 <= n && n <= NATIVE_MAX {
            Some(SignalType::Other(n))
        } else {
            None
        }
    }
}

/// Converting a native number back never yields a false match: whatever signal
/// comes back converts to that very number, and every supported signal is found
/// again from its own number.
pub proof fn lemma_native_round_trip(n: i32, s: SignalType)
    ensures
        spec_from_native(n) == Some(s) ==> s.spec_native() == Some(n),
        s.spec_native() == Some(n) ==> spec_from_native(n) == Some(s),
        !(1 <= n <= NATIVE_MAX) ==> spec_from_native(n) is None,
{
}

} // verus!
