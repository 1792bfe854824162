use counters::keyed::PersistentCounter;

#[test]
fn unwritten_identity_reads_zero() {
    let p = PersistentCounter::new();
    assert_eq!(p.get(42), 0);
}

#[test]
fn first_write_reads_back() {
    let mut p = PersistentCounter::new();
    assert_eq!(p.inc(7, 13), 13);
    assert_eq!(p.get(7), 13);
}

#[test]
fn two_writes_add_up() {
    let mut p = PersistentCounter::new();
    p.inc(7, 5);
    p.inc(7, 8);
    assert_eq!(p.get(7), 13);
}

#[test]
fn negative_deltas_subtract() {
    let mut p = PersistentCounter::new();
    p.inc(3, 10);
    assert_eq!(p.inc(3, -4), 6);
    assert_eq!(p.get(3), 6);
}

#[test]
fn identities_are_independent() {
    let mut p = PersistentCounter::new();
    p.inc(1, 5);
    assert_eq!(p.get(2), 0);
    p.inc(2, 9);
    assert_eq!(p.get(1), 5);
    assert_eq!(p.get(2), 9);
}

#[test]
fn writing_zero_still_reads_zero() {
    let mut p = PersistentCounter::new();
    assert_eq!(p.inc(4, 0), 0);
    assert_eq!(p.get(4), 0);
}

#[test]
fn inc_returns_the_new_value() {
    let mut p = PersistentCounter::new();
    assert_eq!(p.inc(0, 1), 1);
    assert_eq!(p.inc(0, 1), 2);
    assert_eq!(p.inc(0, -3), -1);
}
