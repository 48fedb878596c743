use ctrlc::counter::{slot_for, SLOTS};
use ctrlc::{SignalCounters, SignalType};

#[test]
fn table_is_populated_before_any_handler() {
    let table = SignalCounters::new();
    for n in 1..=31 {
        let s = SignalType::from_native(n).unwrap();
        let h = table.get_counter(s).expect("counter present");
        assert_eq!(table.count(h), 0);
        assert_eq!(h.slot, (n - 1) as usize);
    }
    assert_eq!(SLOTS, 31);
}

#[test]
fn unsupported_signal_has_no_counter() {
    let table = SignalCounters::new();
    assert!(table.get_counter(SignalType::Other(0)).is_none());
    assert!(table.get_counter(SignalType::Other(40)).is_none());
    assert!(table.get_counter(SignalType::Other(2)).is_none());
}

#[test]
fn interleaved_deliveries_lose_no_update() {
    let mut table = SignalCounters::new();
    let mut expected_int = 0u64;
    let mut expected_term = 0u64;
    for i in 0..1000 {
        if i % 3 == 0 {
            table.deliver(15);
            expected_term += 1;
        } else {
            table.deliver(2);
            expected_int += 1;
        }
        table.deliver(99);
    }
    let hi = table.get_counter(SignalType::Interrupt).unwrap();
    let ht = table.get_counter(SignalType::Terminate).unwrap();
    let hh = table.get_counter(SignalType::Hangup).unwrap();
    assert_eq!(table.count(hi), expected_int);
    assert_eq!(table.count(ht), expected_term);
    assert_eq!(table.count(hh), 0);
    assert_eq!(expected_int + expected_term, 1000);
}

#[test]
fn delivery_of_unknown_number_changes_nothing() {
    let mut table = SignalCounters::new();
    table.deliver(0);
    table.deliver(-3);
    table.deliver(32);
    for n in 1..=31 {
        let h = table.get_counter(SignalType::from_native(n).unwrap()).unwrap();
        assert_eq!(table.count(h), 0);
    }
}

#[test]
fn increment_counts_one() {
    let mut table = SignalCounters::new();
    let h = table.get_counter(SignalType::Other(10)).unwrap();
    table.increment(h);
    table.increment(h);
    assert_eq!(table.count(h), 2);
    let other = table.get_counter(SignalType::Other(12)).unwrap();
    assert_eq!(table.count(other), 0);
}

#[test]
fn slots_follow_native_numbers() {
    assert_eq!(slot_for(SignalType::Hangup), Some(0));
    assert_eq!(slot_for(SignalType::Interrupt), Some(1));
    assert_eq!(slot_for(SignalType::Terminate), Some(14));
    assert_eq!(slot_for(SignalType::Other(31)), Some(30));
    assert_eq!(slot_for(SignalType::Other(32)), None);
}
