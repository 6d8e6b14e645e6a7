use keyboard_shared::wrapping_id::WrappingID;

#[test]
fn counter_keeps_its_value() {
    assert_eq!(WrappingID::<u16>::new(0).get(), 0);
    assert_eq!(WrappingID::new(65535u16).get(), 65535);
}

#[test]
fn inc_wraps() {
    let mut id = WrappingID::new(65534u16);
    id.inc();
    assert_eq!(id.get(), 65535);
    id.inc();
    assert_eq!(id.get(), 0);
    id.inc();
    assert_eq!(id.get(), 1);
}

#[test]
fn add_moves_both_ways_and_wraps() {
    let mut id = WrappingID::new(10u16);
    id.add(5);
    assert_eq!(id.get(), 15);
    id.add(-20);
    assert_eq!(id.get(), 65531);
    id.add(10);
    assert_eq!(id.get(), 5);
    id.add(i16::MIN);
    assert_eq!(id.get(), 32773);
    id.add(i16::MAX);
    assert_eq!(id.get(), 4);
}

#[test]
fn delta_is_the_shorter_way_round() {
    let at = |v: u16| WrappingID::new(v);
    assert_eq!(at(5).delta(at(5)), 0);
    assert_eq!(at(10).delta(at(5)), 5);
    assert_eq!(at(5).delta(at(10)), -5);
    assert_eq!(at(2).delta(at(65534)), 4);
    assert_eq!(at(65534).delta(at(2)), -4);
    assert_eq!(at(32767).delta(at(0)), 32767);
    assert_eq!(at(0).delta(at(32767)), -32767);
    assert_eq!(at(32769).delta(at(0)), -32767);
}

#[test]
fn delta_of_opposite_counters_is_zero() {
    let at = |v: u16| WrappingID::new(v);
    assert_eq!(at(32768).delta(at(0)), 0);
    assert_eq!(at(0).delta(at(32768)), 0);
    assert_eq!(at(40000).delta(at(7232)), 0);
}

#[test]
fn adding_the_delta_arrives() {
    for (from, to) in [(0u16, 100u16), (100, 0), (65000, 300), (300, 65000), (1, 32768)] {
        let mut id = WrappingID::new(from);
        let d = WrappingID::new(to).delta(id);
        id.add(d);
        assert_eq!(id.get(), to);
    }
}

#[test]
fn counter_is_copied() {
    let id = WrappingID::new(7u16);
    let copy = id;
    assert_eq!(id.get(), copy.get());
    assert_eq!(id.clone().get(), 7);
}
