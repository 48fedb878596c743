//! Registration state of the handler: at most one installation per signal
//! succeeds until that signal's handler is reset.
//!
//! Installing a handler takes three steps, run under one lock by the caller:
//! `set_handler` decides whether to install and on which native signal, the
//! caller installs the trampoline with the operating system, and
//! `handler_installed` turns the disposition the system reports as previous into
//! the outcome. `reset_handler` gives the native signal whose default disposition
//! the caller restores.
use vstd::prelude::*;

use crate::counter::{slot_of, SLOTS};
use crate::error::{Error, OsError};
use crate::signal::SignalType;

verus! {

/// How the operating system handled a signal before an installation.
#[derive(Clone, Copy, Debug, PartialEq, Eq, Structural)]
pub enum Disposition {
    /// The system's default action.
    Default,
    /// The signal was ignored.
    Ignore,
    /// Some handler was installed.
    Handler,
}

/// Which signals this library has installed its handler for.
pub struct Registry {
    registered: Vec<bool>,
}

impl View for Registry {
    type V = Seq<bool>;

    closed spec fn view(&self) -> Seq<bool> {
        self.registered@
    }
}

/// Whether `signal` is recorded as registered in `reg`.
pub open spec fn spec_registered(reg: Seq<bool>, signal: SignalType) -> bool {
    match signal.spec_native() {
        Some(n) => reg[slot_of(n)],
        None => false,
    }
}

/// Outcome of asking to install the handler for `signal`: the native signal to
/// install it on, `NoSuchSignal` for a signal the platform does not know, and
/// `MultipleHandlers` while the handler is already registered.
pub open spec fn spec_set_handler(reg: Seq<bool>, signal: SignalType) -> Result<i32, Error> {
    match signal.spec_native() {
        None => Err(Error::NoSuchSignal(signal)),
        Some(n) => if reg[slot_of(n)] {
            Err(Error::MultipleHandlers)
        } else {
            Ok(n)
        },
    }
}

/// Outcome of an installation, from what the system reported: its own failure
/// as `System`, success where the previous disposition was the default, and
/// `MultipleHandlers` where something else was already in place.
pub open spec fn spec_installed(
    signal: SignalType,
    previous: Result<Disposition, OsError>,
) -> Result<(), Error> {
    match signal.spec_native() {
        None => Err(Error::NoSuchSignal(signal)),
        Some(_) => match previous {
            Err(e) => Err(Error::System(e)),
            Ok(Disposition::Default) => Ok(()),
            Ok(_) => Err(Error::MultipleHandlers),
        },
    }
}

/// Registration state after an installation: the handler now stands whenever
/// the system call went through, whatever the previous disposition was.
pub open spec fn spec_after_install(
    reg: Seq<bool>,
    signal: SignalType,
    previous: Result<Disposition, OsError>,
) -> Seq<bool> {
    match signal.spec_native() {
        Some(n) => if previous is Ok {
            reg.update(slot_of(n), true)
        } else {
            reg
        },
        None => reg,
    }
}

/// Registration state after a reset of `signal`.
pub open spec fn spec_after_reset(reg: Seq<bool>, signal: SignalType) -> Seq<bool> {
    match signal.spec_native() {
        Some(n) => reg.update(slot_of(n), false),
        None => reg,
    }
}

impl Registry {
    /// One entry per standard signal.
    pub open spec fn wf(&self) -> bool {
        self@.len() == SLOTS
    }

    /// A registry in which no handler is registered.
    pub fn new() -> (r: Registry)
        ensures
            r.wf(),
            r@.len() == SLOTS,
            forall|i: int| 0 <= i < SLOTS ==> !r@[i],
            forall|s: SignalType| !spec_registered(r@, s),
    {
        let mut registered: Vec<bool> = Vec::new();
        let mut i: usize = 0;
        while i < SLOTS
            invariant
                i <= SLOTS,
                registered@.len() == i,
                forall|j: int| 0 <= j < i ==> !registered@[j],
            decreases SLOTS - i,
        {
            registered.push(false);
            i = i + 1;
        }
        Registry { registered }
    }

    /// Whether the handler for `signal` is registered.
    pub fn is_registered(&self, signal: SignalType) -> (r: bool)
        requires
            self.wf(),
        ensures
            r == spec_registered(self@, signal),
    {
        match signal.to_native() {
            Some(n) => self.registered[(n - 1) as usize],
            None => false,
        }
    }

    /// Asks to install the handler for `signal`; on `Ok(n)` the caller installs
    /// the trampoline on native signal `n` and reports the system's answer to
    /// `handler_installed`.
    pub fn set_handler(&self, signal: SignalType) -> (r: Result<i32, Error>)
        requires
            self.wf(),
        ensures
            r == spec_set_handler(self@, signal),
    {
        match signal.to_native() {
            None => Err(Error::NoSuchSignal(signal)),
            Some(n) => {
                if self.registered[(n - 1) as usize] {
                    Err(Error::MultipleHandlers)
                } else {
                    Ok(n)
                }
            },
        }
    }

    /// Records an installation for `signal`, given the previous disposition the
    /// system reported or the system's failure, and returns the outcome.
    pub fn handler_installed(
        &mut self,
        signal: SignalType,
        previous: Result<Disposition, OsError>,
    ) -> (r: Result<(), Error>)
        requires
            old(self).wf(),
        ensures
            final(self).wf(),
            r == spec_installed(signal, previous),
            final(self)@ == spec_after_install(old(self)@, signal, previous),
    {
        match signal.to_native() {
            None => Err(Error::NoSuchSignal(signal)),
            Some(n) => match previous {
                Err(e) => Err(Error::System(e)),
                Ok(d) => {
                    self.registered.set((n - 1) as usize, true);
                    match d {
                        Disposition::Default => Ok(()),
                        _ => Err(Error::MultipleHandlers),
                    }
                },
            },
        }
    }

    /// Marks the handler for `signal` as no longer registered and gives the
    /// native signal whose default disposition the caller restores; `None` for
    /// a signal the platform does not know.
    pub fn reset_handler(&mut self, signal: SignalType) -> (r: Option<i32>)
        requires
            old(self).wf(),
        ensures
            final(self).wf(),
            r == signal.spec_native(),
            final(self)@ == spec_after_reset(old(self)@, signal),
    {
        match signal.to_native() {
            None => None,
            Some(n) => {
                self.registered.set((n - 1) as usize, false);
                Some(n)
            },
        }
    }
}

/// The first installation of a supported signal's handler succeeds where the
/// system reports the default disposition; once the handler stands, asking again
/// fails with `MultipleHandlers` without reaching the system.
pub proof fn lemma_second_set_fails(
    reg: Seq<bool>,
    signal: SignalType,
    previous: Result<Disposition, OsError>,
)
    requires
        reg.len() == SLOTS,
        signal.is_supported(),
        !spec_registered(reg, signal),
    ensures
        spec_set_handler(reg, signal) == Ok::<i32, Error>(signal.spec_native().unwrap()),
        previous == Ok::<Disposition, OsError>(Disposition::Default) ==> spec_installed(
            signal,
            previous,
        ) == Ok::<(), Error>(()),
        previous is Ok ==> spec_set_handler(spec_after_install(reg, signal, previous), signal)
            == Err::<i32, Error>(Error::MultipleHandlers),
{
}

/// A reset makes the next installation possible again: after `reset_handler`
/// the request to install succeeds, and so does the installation where the
/// system reports the default disposition the reset restored.
pub proof fn lemma_reset_then_set(reg: Seq<bool>, signal: SignalType)
    requires
        reg.len() == SLOTS,
        signal.is_supported(),
    ensures
        !spec_registered(spec_after_reset(reg, signal), signal),
        spec_set_handler(spec_after_reset(reg, signal), signal) == Ok::<i32, Error>(
            signal.spec_native().unwrap(),
        ),
        spec_installed(signal, Ok(Disposition::Default)) == Ok::<(), Error>(()),
        spec_registered(
            spec_after_install(spec_after_reset(reg, signal), signal, Ok(Disposition::Default)),
            signal,
        ),
{
}

/// Registration of one signal leaves every other signal's registration as it was.
pub proof fn lemma_signals_independent(
    reg: Seq<bool>,
    signal: SignalType,
    other: SignalType,
    previous: Result<Disposition, OsError>,
)
    requires
        reg.len() == SLOTS,
        signal.spec_native() != other.spec_native(),
    ensures
        spec_registered(spec_after_install(reg, signal, previous), other) == spec_registered(
            reg,
            other,
        ),
        spec_registered(spec_after_reset(reg, signal), other) == spec_registered(reg, other),
{
}

/// Of two installations of one signal in a row, with no reset between them, at
/// most one succeeds: once one has gone through, the next request is refused.
pub proof fn lemma_at_most_one_success(
    reg: Seq<bool>,
    signal: SignalType,
    previous: Result<Disposition, OsError>,
)
    requires
        reg.len() == SLOTS,
    ensures
        previous is Ok ==> spec_registered(spec_after_install(reg, signal, previous), signal)
            == signal.is_supported(),
        (spec_set_handler(reg, signal) is Ok && spec_installed(signal, previous) is Ok)
            ==> spec_set_handler(spec_after_install(reg, signal, previous), signal) == Err::<
            i32,
            Error,
        >(Error::MultipleHandlers),
{
}

/// A reset leaves the signal unregistered, and a second reset changes nothing.
pub proof fn lemma_reset_idempotent(reg: Seq<bool>, signal: SignalType)
    requires
        reg.len() == SLOTS,
    ensures
        !spec_registered(spec_after_reset(reg, signal), signal),
        spec_after_reset(spec_after_reset(reg, signal), signal) == spec_after_reset(reg, signal),
{
    if let Some(n) = signal.spec_native() {
        assert(spec_after_reset(spec_after_reset(reg, signal), signal) =~= spec_after_reset(
            reg,
            signal,
        ));
    }
}

} // verus!
