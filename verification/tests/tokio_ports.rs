use async_flow::error::{Error, RecvError, SendError};
use async_flow::io::{Cardinality, PortDirection, PortEvent, PortState};
use async_flow::tokio::{
    check_counts, message_of, Channel, ONESHOT, UNLIMITED, GroupBudget, GroupReading, InputStage, Inputs, Outputs, Quota,
};
use std::any::TypeId;

fn receive<T>(input: &mut Inputs<T>) -> Result<Option<PortEvent<T>>, RecvError> {
    if let Some(done) = input.recv_without_channel() {
        return done;
    }
    let event = match input.receiver_mut().unwrap().try_recv() {
        Ok(event) => Some(event),
        Err(tokio::sync::mpsc::error::TryRecvError::Disconnected) => None,
        Err(tokio::sync::mpsc::error::TryRecvError::Empty) => panic!("nothing to receive"),
    };
    input.complete_recv(event)
}

fn send<T>(output: &Outputs<T>, event: PortEvent<T>) -> Result<(), SendError> {
    if let Some(refusal) = output.send_refusal() {
        return Err(refusal);
    }
    let counted = Outputs::counts(&event);
    if counted {
        output.quota().check()?;
    }
    output
        .sender()
        .unwrap()
        .try_send(event)
        .map_err(|_| SendError::Disconnected)?;
    if counted {
        output.quota().commit()?;
    }
    Ok(())
}

fn limits(max: isize, min: isize) -> Cardinality {
    Cardinality::from_limits(max, min)
}

#[test]
fn oneshot_allows_a_single_message_and_then_ends() {
    let (output, mut input) = Channel::<u8>::oneshot().into_inner();
    let peer = output.clone();
    send(&output, PortEvent::Message(7)).unwrap();
    assert_eq!(
        send(&peer, PortEvent::Message(8)),
        Err(SendError::CardinalityExceeded { maximum: 1 })
    );
    assert!(matches!(receive(&mut input), Ok(Some(PortEvent::Message(7)))));
    assert!(matches!(receive(&mut input), Ok(None)));
    assert_eq!(input.state(), PortState::Disconnected);
}

#[test]
fn control_events_are_delivered_but_not_counted() {
    let (output, mut input) = Channel::<u8>::with_cardinality(4, limits(1, 0)).into_inner();
    send(&output, PortEvent::Connect).unwrap();
    send(&output, PortEvent::Message(1)).unwrap();
    assert!(matches!(receive(&mut input), Ok(Some(PortEvent::Connect))));
    assert_eq!(input.received_count(), 0);
    assert!(matches!(receive(&mut input), Ok(Some(PortEvent::Message(1)))));
    assert_eq!(input.received_count(), 1);
    assert!(matches!(receive(&mut input), Ok(None)));
}

#[test]
fn premature_eof_reports_the_shortfall_once() {
    let (output, mut input) = Channel::<u8>::with_cardinality(4, limits(-1, 2)).into_inner();
    send(&output, PortEvent::Message(1)).unwrap();
    drop(output);
    assert!(matches!(receive(&mut input), Ok(Some(PortEvent::Message(1)))));
    assert_eq!(
        receive(&mut input).err(),
        Some(RecvError::CardinalityUnderflow { minimum: 2, received: 1 })
    );
    assert!(matches!(receive(&mut input), Ok(None)));
    assert_eq!(input.state(), PortState::Disconnected);
}

#[test]
fn a_disconnect_marker_below_the_minimum_reports_the_shortfall() {
    let (output, mut input) = Channel::<u8>::with_cardinality(4, limits(-1, 1)).into_inner();
    send(&output, PortEvent::Disconnect).unwrap();
    send(&output, PortEvent::Message(5)).unwrap();
    assert_eq!(
        receive(&mut input).err(),
        Some(RecvError::CardinalityUnderflow { minimum: 1, received: 0 })
    );
    assert!(matches!(receive(&mut input), Ok(None)));
}

#[test]
fn a_disconnect_marker_ends_a_satisfied_stream_and_is_returned_once() {
    let (output, mut input) = Channel::<u8>::bounded(4).into_inner();
    send(&output, PortEvent::Message(1)).unwrap();
    send(&output, PortEvent::Disconnect).unwrap();
    send(&output, PortEvent::Message(2)).unwrap();
    assert!(matches!(receive(&mut input), Ok(Some(PortEvent::Message(1)))));
    assert!(matches!(receive(&mut input), Ok(Some(PortEvent::Disconnect))));
    assert!(matches!(receive(&mut input), Ok(None)));
}

#[test]
fn a_required_unconnected_input_reports_its_shortfall() {
    let mut input = Inputs::<u8>::unconnected(limits(-1, 1));
    assert_eq!(input.state(), PortState::Unconnected);
    assert_eq!(
        receive(&mut input).err(),
        Some(RecvError::CardinalityUnderflow { minimum: 1, received: 0 })
    );
    assert!(matches!(receive(&mut input), Ok(None)));
    let mut optional = Inputs::<u8>::unconnected(Cardinality::unlimited());
    assert!(matches!(receive(&mut optional), Ok(None)));
    assert_eq!(optional.state(), PortState::Unconnected);
}

#[test]
fn closing_an_input_skips_the_minimum_and_disconnects_senders() {
    let (output, mut input) = Channel::<u8>::with_cardinality(2, limits(-1, 3)).into_inner();
    input.close();
    input.close();
    assert_eq!(input.state(), PortState::Closed);
    assert!(matches!(receive(&mut input), Ok(None)));
    assert_eq!(send(&output, PortEvent::Message(1)), Err(SendError::Disconnected));
    assert_eq!(output.state(), PortState::Disconnected);
}

#[test]
fn disconnecting_an_input_keeps_buffered_events() {
    let (output, mut input) = Channel::<u8>::bounded(2).into_inner();
    send(&output, PortEvent::Message(7)).unwrap();
    input.disconnect();
    assert_eq!(send(&output, PortEvent::Message(8)), Err(SendError::Disconnected));
    assert!(matches!(receive(&mut input), Ok(Some(PortEvent::Message(7)))));
    assert!(matches!(receive(&mut input), Ok(None)));
}

#[test]
fn a_zero_maximum_creates_an_ended_stream() {
    let (output, mut input) = Channel::<u8>::with_cardinality(1, limits(0, 0)).into_inner();
    assert_eq!(input.state(), PortState::Disconnected);
    assert!(matches!(receive(&mut input), Ok(None)));
    assert_eq!(
        send(&output, PortEvent::Message(1)),
        Err(SendError::CardinalityExceeded { maximum: 0 })
    );
}

#[test]
fn closed_and_unconnected_outputs_refuse_to_send() {
    let mut output = Outputs::<u8>::default();
    assert_eq!(output.state(), PortState::Unconnected);
    assert_eq!(output.send_refusal(), Some(SendError::Unconnected));
    assert_eq!(output.capacity(), None);
    output.close();
    assert_eq!(output.state(), PortState::Closed);
    assert_eq!(output.send_refusal(), Some(SendError::Closed));
    assert_eq!(output.direction(), PortDirection::Output);
}

#[test]
fn capacities_are_reported_while_endpoints_are_retained() {
    let (output, mut input) = Channel::<u8>::bounded(3).into_inner();
    assert_eq!(output.max_capacity(), Some(3));
    assert_eq!(input.max_capacity(), Some(3));
    send(&output, PortEvent::Message(1)).unwrap();
    assert_eq!(output.capacity(), Some(2));
    assert_eq!(input.capacity(), Some(2));
    assert!(!input.is_empty());
    input.close();
    assert_eq!(input.capacity(), None);
    assert!(input.is_empty());
    assert_eq!(input.direction(), PortDirection::Input);
}

#[test]
fn channel_endpoints_share_their_bounds_and_type() {
    let channel = Channel::<u16>::with_cardinality(1, limits(4, 2));
    assert_eq!(channel.tx.cardinality(), limits(4, 2));
    assert_eq!(channel.rx.cardinality(), limits(4, 2));
    assert_eq!(channel.type_id(), TypeId::of::<u16>());
    assert_eq!(channel.tx.type_id(), TypeId::of::<u16>());
    assert_eq!(channel.rx.type_id(), TypeId::of::<u16>());
    let (a, b) = Channel::<u8>::pair();
    assert_eq!(a.rx.cardinality(), Cardinality::unlimited());
    assert_eq!(b.tx.cardinality(), Cardinality::unlimited());
    let rejoined = Channel::from(a.into_inner());
    assert_eq!(rejoined.rx.state(), PortState::Connected);
    let idle = Channel::<u8>::default();
    assert_eq!(idle.rx.state(), PortState::Unconnected);
    assert_eq!(idle.tx.state(), PortState::Unconnected);
}

#[test]
fn an_exhausted_quota_disconnects_a_connected_input() {
    let (output, mut input) = Channel::<u8>::with_cardinality(2, limits(1, 0)).into_inner();
    assert_eq!(input.state(), PortState::Connected);
    send(&output, PortEvent::Message(1)).unwrap();
    assert_eq!(input.state(), PortState::Disconnected);
    input.disconnect_if_exhausted();
    assert!(matches!(receive(&mut input), Ok(Some(PortEvent::Message(1)))));
}

#[test]
fn quota_verdicts_follow_the_bounds() {
    let oneshot = Cardinality::oneshot();
    assert_eq!(check_counts(oneshot, 0, None), Ok(()));
    assert_eq!(
        check_counts(oneshot, 1, None),
        Err(SendError::CardinalityExceeded { maximum: 1 })
    );
    assert_eq!(check_counts(Cardinality::unlimited(), usize::MAX, None), Ok(()));
    let exhausted = GroupReading { extra_limit: Some(2), extras: 2, maximum: Some(5) };
    assert_eq!(
        check_counts(limits(5, 1), 1, Some(exhausted)),
        Err(SendError::FanInBudgetExhausted { maximum: 5 })
    );
    let exhausted = GroupReading { extra_limit: Some(2), extras: 2, maximum: Some(5) };
    assert_eq!(check_counts(limits(5, 1), 0, Some(exhausted)), Ok(()));
}

#[test]
fn a_quota_counts_commits_up_to_its_maximum() {
    let quota = Quota::new(limits(2, 0));
    assert!(!quota.is_grouped());
    assert_eq!(quota.commit(), Ok(()));
    assert_eq!(quota.check(), Ok(()));
    assert_eq!(quota.commit(), Ok(()));
    assert_eq!(quota.check(), Err(SendError::CardinalityExceeded { maximum: 2 }));
    assert_eq!(quota.commit(), Err(SendError::CardinalityExceeded { maximum: 2 }));
    let open = Quota::new(Cardinality::unlimited());
    for _ in 0..10 {
        assert_eq!(open.commit(), Ok(()));
    }
    assert_eq!(open.bounds(), Cardinality::unlimited());
}

#[test]
fn a_group_budget_reserves_minimums_before_extras() {
    assert!(GroupBudget::new(limits(3, 0), 4).is_none());
    let group = GroupBudget::new(limits(3, 0), 2).unwrap();
    assert_eq!(group.check_extra(), Ok(()));
    let a = Quota::grouped(limits(2, 1), group.clone());
    let b = Quota::grouped(limits(2, 1), group.clone());
    assert!(a.is_grouped());
    assert_eq!(a.commit(), Ok(()));
    assert_eq!(a.commit(), Ok(()));
    assert_eq!(group.check_extra(), Err(SendError::FanInBudgetExhausted { maximum: 3 }));
    assert!(a.check().is_err());
    assert_eq!(b.commit(), Ok(()));
    assert!(GroupBudget::new(Cardinality::unlimited(), 7).unwrap().check_extra().is_ok());
}

#[test]
fn errors_convert_into_the_crate_error() {
    assert!(matches!(Error::from(SendError::Closed), Error::Send(SendError::Closed)));
    assert!(matches!(
        Error::from(RecvError::Unavailable),
        Error::Recv(RecvError::Unavailable)
    ));
    let io = std::io::Error::from(std::io::ErrorKind::InvalidInput);
    assert!(matches!(Error::from(io), Error::Stdio(_)));
}

#[test]
fn input_stages_track_the_lifecycle() {
    let mut input = Inputs::<u8>::default();
    assert_eq!(input.cardinality(), Cardinality::unlimited());
    input.disconnect();
    assert_eq!(input.state(), PortState::Unconnected);
    let _ = InputStage::Ended;
    input.close();
    assert_eq!(input.state(), PortState::Closed);
}

#[test]
fn message_receives_skip_connect_events_and_end_at_markers() {
    assert_eq!(message_of(Some(PortEvent::Message(3u8))), Some(Some(3)));
    assert_eq!(message_of(Some(PortEvent::<u8>::Connect)), None);
    assert_eq!(message_of(Some(PortEvent::<u8>::Disconnect)), Some(None));
    assert_eq!(message_of(None::<PortEvent<u8>>), Some(None));
}

#[test]
fn raw_access_is_limited_to_unconstrained_ports() {
    let (mut output, mut input) = Channel::<u8>::bounded(1).into_inner();
    assert!(input.as_ref().is_some());
    assert!(output.as_ref().is_some());
    output.as_mut().unwrap().try_send(PortEvent::Message(4)).unwrap();
    assert!(matches!(input.as_mut().unwrap().try_recv(), Ok(PortEvent::Message(4))));
    let (_, mut guarded) = Channel::<u8>::oneshot().into_inner();
    assert!(guarded.as_ref().is_none());
    assert!(guarded.as_mut().is_none());
    let mut closed = Outputs::<u8>::default();
    closed.close();
    assert!(closed.as_ref().is_none());
}

#[test]
fn raw_tokio_halves_become_unconstrained_ports() {
    let (tx, rx) = tokio::sync::mpsc::channel::<PortEvent<u8>>(2);
    let copy = Outputs::from(&tx);
    let channel = Channel::from((tx, rx));
    assert_eq!(channel.rx.cardinality(), Cardinality::unlimited());
    assert_eq!(channel.rx.state(), PortState::Connected);
    assert_eq!(copy.state(), PortState::Connected);
    let (tx, rx) = tokio::sync::mpsc::channel::<PortEvent<u8>>(1);
    drop(rx);
    assert_eq!(Outputs::from(tx).state(), PortState::Disconnected);
    let (tx, rx) = tokio::sync::mpsc::channel::<PortEvent<u8>>(1);
    drop(tx);
    assert_eq!(Inputs::from(rx).state(), PortState::Disconnected);
}

#[test]
fn limit_constants_describe_the_common_bounds() {
    assert_eq!(Cardinality::from_limits(UNLIMITED, 0), Cardinality::unlimited());
    assert_eq!(Cardinality::from_limits(ONESHOT, 0), Cardinality::oneshot());
}

#[test]
fn paired_channels_carry_their_own_events() {
    let (a, b) = Channel::<u8>::pair();
    let (a_tx, mut a_rx) = a.into_inner();
    let (b_tx, mut b_rx) = b.into_inner();
    assert_eq!(a_tx.cardinality(), Cardinality::unlimited());
    assert_eq!(b_rx.cardinality(), Cardinality::unlimited());
    assert_eq!(a_rx.received_count(), 0);
    assert_eq!(b_rx.received_count(), 0);
    send(&a_tx, PortEvent::Message(5)).unwrap();
    assert!(b_rx.is_empty());
    assert!(matches!(receive(&mut a_rx), Ok(Some(PortEvent::Message(5)))));
    a_rx.close();
    assert_eq!(b_rx.state(), PortState::Connected);
    send(&b_tx, PortEvent::Message(6)).unwrap();
    assert!(matches!(receive(&mut b_rx), Ok(Some(PortEvent::Message(6)))));
}
