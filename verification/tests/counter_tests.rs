use counters::counter::Counter;

#[test]
fn new_counter_holds_zero() {
    let c = Counter::new();
    assert_eq!(c.get_value(), 0);
}

#[test]
fn value_is_net_of_steps() {
    let mut c = Counter::new();
    c.increment();
    c.increment();
    c.increment();
    c.decrement();
    assert_eq!(c.get_value(), 2);
}

#[test]
fn value_can_go_negative() {
    let mut c = Counter::new();
    c.decrement();
    c.decrement();
    assert_eq!(c.get_value(), -2);
}

#[test]
fn reset_returns_to_zero() {
    let mut c = Counter::new();
    c.increment();
    c.increment();
    c.reset();
    assert_eq!(c.get_value(), 0);
}

#[test]
fn steps_after_reset_count_from_zero() {
    let mut c = Counter::new();
    c.decrement();
    c.reset();
    c.increment();
    assert_eq!(c.get_value(), 1);
}

#[test]
fn get_value_does_not_mutate() {
    let mut c = Counter::new();
    c.increment();
    assert_eq!(c.get_value(), 1);
    assert_eq!(c.get_value(), 1);
}
