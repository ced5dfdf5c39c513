use conference_core::attendee::Attendee;
use conference_core::attendee::Counter;
use conference_core::ValidationError;

#[test]
fn sequential_ids_are_gap_free() {
    let mut counter = Counter::new();
    let a = Attendee::new(&mut counter, "Ana".to_string(), false).unwrap();
    let b = Attendee::new(&mut counter, "Bob".to_string(), true).unwrap();
    let c = Attendee::new(&mut counter, "Cleo".to_string(), false).unwrap();
    let mut ids = vec![a.reg_num(), b.reg_num(), c.reg_num()];
    ids.sort();
    assert_eq!(ids, vec![0, 1, 2]);
    assert_eq!(counter.value, 3);
}

#[test]
fn empty_name_rejected_at_construction() {
    let mut counter = Counter::new();
    let r = Attendee::new(&mut counter, "".to_string(), true);
    assert!(matches!(r, Err(ValidationError)));
    assert_eq!(counter.value, 0);
    let ok = Attendee::new(&mut counter, "Dana".to_string(), true).unwrap();
    assert_eq!(ok.reg_num(), 0);
}

#[test]
fn rename_with_empty_string_changes_nothing() {
    let mut counter = Counter::new();
    let mut a = Attendee::new(&mut counter, "ali ce".to_string(), true).unwrap();
    let r = a.set_name("".to_string());
    assert_eq!(r, Err(ValidationError));
    assert_eq!(a.reg_num(), 0);
    assert!(a.speaker());
    assert_eq!(a.get_name(), "ALI CE");
}

#[test]
fn name_reads_back_uppercased() {
    let mut counter = Counter::new();
    let mut a = Attendee::new(&mut counter, "ali ce".to_string(), false).unwrap();
    assert_eq!(a.get_name(), "ALI CE");
    a.set_name("bOb".to_string()).unwrap();
    assert_eq!(a.get_name(), "BOB");
    a.set_name("MIXED case".to_string()).unwrap();
    assert_eq!(a.get_name(), "MIXED CASE");
}

#[test]
fn rename_keeps_number_and_flag() {
    let mut counter = Counter::new();
    let mut a = Attendee::new(&mut counter, "Ana".to_string(), true).unwrap();
    a.set_name("Beatrix".to_string()).unwrap();
    assert_eq!(a.reg_num(), 0);
    assert!(a.speaker());
    assert_eq!(a.get_name(), "BEATRIX");
}

#[test]
fn validation_error_message() {
    assert_eq!(ValidationError.message(), "Please enter a name");
}
