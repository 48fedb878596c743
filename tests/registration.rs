use ctrlc::{Disposition, Error, OsError, Registry, SignalCounters, SignalType};

fn os_error() -> OsError {
    OsError { code: 22, message: "Invalid argument".to_string() }
}

#[test]
fn first_set_succeeds_second_fails() {
    let mut reg = Registry::new();
    let s = SignalType::Interrupt;
    assert_eq!(reg.set_handler(s), Ok(2));
    assert_eq!(reg.handler_installed(s, Ok(Disposition::Default)), Ok(()));
    assert!(reg.is_registered(s));
    assert_eq!(reg.set_handler(s), Err(Error::MultipleHandlers));
}

#[test]
fn reset_then_set_succeeds_again() {
    let mut reg = Registry::new();
    let s = SignalType::Terminate;
    assert_eq!(reg.set_handler(s), Ok(15));
    assert_eq!(reg.handler_installed(s, Ok(Disposition::Default)), Ok(()));
    assert_eq!(reg.reset_handler(s), Some(15));
    assert!(!reg.is_registered(s));
    assert_eq!(reg.set_handler(s), Ok(15));
    assert_eq!(reg.handler_installed(s, Ok(Disposition::Default)), Ok(()));
}

#[test]
fn foreign_previous_handler_is_multiple_handlers() {
    let mut reg = Registry::new();
    let s = SignalType::Hangup;
    assert_eq!(reg.set_handler(s), Ok(1));
    assert_eq!(reg.handler_installed(s, Ok(Disposition::Handler)), Err(Error::MultipleHandlers));
    // the new handler stays in place
    assert!(reg.is_registered(s));
    let mut reg = Registry::new();
    assert_eq!(reg.handler_installed(s, Ok(Disposition::Ignore)), Err(Error::MultipleHandlers));
}

#[test]
fn system_failure_is_reported_and_not_registered() {
    let mut reg = Registry::new();
    let s = SignalType::Other(9);
    assert_eq!(reg.set_handler(s), Ok(9));
    assert_eq!(reg.handler_installed(s, Err(os_error())), Err(Error::System(os_error())));
    assert!(!reg.is_registered(s));
    assert_eq!(reg.set_handler(s), Ok(9));
}

#[test]
fn unknown_signal_is_no_such_signal() {
    let mut reg = Registry::new();
    let s = SignalType::Other(64);
    assert_eq!(reg.set_handler(s), Err(Error::NoSuchSignal(s)));
    assert_eq!(reg.handler_installed(s, Ok(Disposition::Default)), Err(Error::NoSuchSignal(s)));
    assert_eq!(reg.reset_handler(s), None);
    assert!(!reg.is_registered(s));
}

#[test]
fn registrations_are_per_signal() {
    let mut reg = Registry::new();
    assert_eq!(reg.handler_installed(SignalType::Interrupt, Ok(Disposition::Default)), Ok(()));
    assert!(!reg.is_registered(SignalType::Terminate));
    assert_eq!(reg.set_handler(SignalType::Terminate), Ok(15));
}

#[test]
fn interrupt_scenario_counter_survives_reset() {
    let mut reg = Registry::new();
    let mut table = SignalCounters::new();
    let s = SignalType::Interrupt;
    let n = reg.set_handler(s).unwrap();
    assert_eq!(reg.handler_installed(s, Ok(Disposition::Default)), Ok(()));
    for _ in 0..3 {
        table.deliver(n);
    }
    let h = table.get_counter(s).unwrap();
    assert_eq!(table.count(h), 3);
    assert_eq!(reg.reset_handler(s), Some(n));
    let n2 = reg.set_handler(s).unwrap();
    assert_eq!(reg.handler_installed(s, Ok(Disposition::Default)), Ok(()));
    table.deliver(n2);
    assert_eq!(table.count(h), 4);
}

#[test]
fn reset_twice_is_same_as_once() {
    let mut reg = Registry::new();
    let s = SignalType::Interrupt;
    assert_eq!(reg.handler_installed(s, Ok(Disposition::Default)), Ok(()));
    assert_eq!(reg.reset_handler(s), Some(2));
    assert_eq!(reg.reset_handler(s), Some(2));
    assert!(!reg.is_registered(s));
    assert_eq!(reg.set_handler(s), Ok(2));
}
