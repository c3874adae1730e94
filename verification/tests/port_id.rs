use async_flow::model::{InputPortId, OutputPortId, PortId};
use std::sync::atomic::{AtomicIsize, Ordering};

#[test]
fn input_allocation_stops_after_the_last_negative_id() {
    let counter = AtomicIsize::new(isize::MIN + 1);
    assert_eq!(
        InputPortId::allocate(&counter),
        Some(InputPortId(isize::MIN + 1))
    );
    assert_eq!(
        InputPortId::allocate(&counter),
        Some(InputPortId(isize::MIN))
    );
    for _ in 0..3 {
        assert_eq!(InputPortId::allocate(&counter), None);
        assert_eq!(counter.load(Ordering::Acquire), 0);
    }
}

#[test]
fn output_allocation_stops_after_the_last_positive_id() {
    let counter = AtomicIsize::new(isize::MAX - 1);
    assert_eq!(
        OutputPortId::allocate(&counter),
        Some(OutputPortId(isize::MAX - 1))
    );
    assert_eq!(
        OutputPortId::allocate(&counter),
        Some(OutputPortId(isize::MAX))
    );
    for _ in 0..3 {
        assert_eq!(OutputPortId::allocate(&counter), None);
        assert_eq!(counter.load(Ordering::Acquire), 0);
    }
}

#[test]
fn port_id_encodings_follow_the_documented_example() {
    let input = InputPortId::try_from(-3).unwrap();
    let port = PortId::from(input);
    assert_eq!(usize::from(input), 3);
    assert_eq!(port.magnitude(), 3);
    assert_eq!(port.as_isize(), -3);
    assert_eq!(PortId::from_usize(port.as_usize()).unwrap(), port);
    assert_ne!(port.as_usize(), PortId::try_from(3).unwrap().as_usize());
}

#[test]
fn inserting_into_a_port_set_grows_it_only_for_new_ids() {
    let mut set = async_flow::model::PortIdSet::new();
    assert!(set.insert(async_flow::model::InputPortId(-3)));
    assert!(set.insert(async_flow::model::InputPortId(-1)));
    assert!(!set.insert(async_flow::model::InputPortId(-3)));
    assert_eq!(set.len(), 2);
}
