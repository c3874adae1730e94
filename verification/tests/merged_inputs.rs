use async_flow::error::{RecvError, SendError};
use async_flow::io::{Cardinality, PortEvent, PortState};
use async_flow::model::OutputPortId;
use async_flow::tokio::{
    connect, projected_ranges, sum_capacities, MergedInputs, Outputs,
    SystemPrepareError,
};
use tokio::sync::mpsc::error::TryRecvError;

fn limits(max: isize, min: isize) -> Cardinality {
    Cardinality::from_limits(max, min)
}

fn send<T>(output: &Outputs<T>, event: PortEvent<T>) -> Result<(), SendError> {
    if let Some(refusal) = output.send_refusal() {
        return Err(refusal);
    }
    let counted = Outputs::counts(&event);
    if counted {
        output.quota().check()?;
    }
    output
        .sender()
        .unwrap()
        .try_send(event)
        .map_err(|_| SendError::Disconnected)?;
    if counted {
        output.quota().commit()?;
    }
    Ok(())
}

/// One round of polling, as a runtime would do it, without waiting.
fn poll(input: &mut MergedInputs<u8>) -> Option<Result<Option<PortEvent<u8>>, RecvError>> {
    for index in input.poll_order() {
        let source = input.source_mut(index);
        source.disconnect_if_exhausted();
        let polled = match source.recv_without_channel() {
            Some(done) => Some(done),
            None => match source.receiver_mut().unwrap().try_recv() {
                Ok(event) => Some(source.complete_recv(Some(event))),
                Err(TryRecvError::Empty) => None,
                Err(TryRecvError::Disconnected) => Some(source.complete_recv(None)),
            },
        };
        if let Some(report) = input.settle(index, polled) {
            return Some(report);
        }
    }
    if input.all_done() {
        Some(Ok(None))
    } else {
        None
    }
}

fn recv_event(input: &mut MergedInputs<u8>) -> Result<Option<PortEvent<u8>>, RecvError> {
    if let Some(done) = input.recv_without_channel() {
        return done;
    }
    let event = poll(input).expect("the merged input would wait")?;
    input.complete_recv(event)
}

fn recv(input: &mut MergedInputs<u8>) -> Result<Option<u8>, RecvError> {
    loop {
        return match recv_event(input)? {
            Some(PortEvent::Message(m)) => Ok(Some(m)),
            Some(PortEvent::Connect) => continue,
            Some(PortEvent::Disconnect) | None => Ok(None),
        };
    }
}

fn merge(
    buffer: usize,
    total: Cardinality,
    a: Cardinality,
    b: Cardinality,
) -> (Outputs<u8>, Outputs<u8>, MergedInputs<u8>) {
    let group = connect::<u8>(buffer, total, &[(OutputPortId(1), a), (OutputPortId(2), b)]).unwrap();
    let mut outputs = group.outputs.into_iter();
    let a = outputs.next().unwrap().2;
    let b = outputs.next().unwrap().2;
    (a, b, group.input)
}

#[test]
fn round_robin_preserves_fifo_and_disconnect_is_source_local() {
    let (a, b, mut input) = merge(
        4,
        Cardinality::unlimited(),
        Cardinality::unlimited(),
        Cardinality::unlimited(),
    );
    send(&a, PortEvent::Message(1)).unwrap();
    send(&a, PortEvent::Disconnect).unwrap();
    send(&a, PortEvent::Message(99)).unwrap();
    send(&b, PortEvent::Message(2)).unwrap();
    send(&b, PortEvent::Message(3)).unwrap();
    assert_eq!(recv(&mut input).unwrap(), Some(1));
    assert_eq!(recv(&mut input).unwrap(), Some(2));
    assert_eq!(recv(&mut input).unwrap(), Some(3));
    assert_eq!(a.state(), PortState::Disconnected);
    assert_eq!(b.state(), PortState::Connected);
    send(&b, PortEvent::Message(4)).unwrap();
    assert_eq!(recv(&mut input).unwrap(), Some(4));
    drop(b);
    assert!(recv_event(&mut input).unwrap().is_none());
}

#[test]
fn aggregate_budget_reserves_each_producers_minimum() {
    let (a, b, mut input) = merge(3, limits(3, 2), limits(-1, 1), limits(-1, 1));
    send(&a, PortEvent::Message(1)).unwrap();
    send(&a, PortEvent::Message(2)).unwrap();
    assert!(send(&a, PortEvent::Message(3)).is_err());
    send(&b, PortEvent::Message(4)).unwrap();
    let mut seen = Vec::new();
    while let Some(n) = recv(&mut input).unwrap() {
        seen.push(n);
    }
    seen.sort();
    assert_eq!(seen, vec![1, 2, 4]);
}

#[test]
fn exhausted_spare_budget_retires_live_sources_without_waiting_for_drops() {
    let (a, b, mut input) = merge(2, limits(3, 0), Cardinality::unlimited(), Cardinality::unlimited());
    send(&a, PortEvent::Message(1)).unwrap();
    send(&b, PortEvent::Message(2)).unwrap();
    send(&b, PortEvent::Message(3)).unwrap();
    assert_eq!(
        send(&a, PortEvent::Message(4)),
        Err(SendError::FanInBudgetExhausted { maximum: 3 })
    );
    let mut seen = Vec::new();
    while let Some(n) = recv(&mut input).unwrap() {
        seen.push(n);
    }
    assert_eq!(seen.len(), 3);
}

#[test]
fn source_shortfall_is_not_masked_by_other_producers() {
    let (a, b, mut input) = merge(3, limits(5, 2), limits(3, 1), limits(3, 1));
    send(&a, PortEvent::Message(1)).unwrap();
    send(&a, PortEvent::Message(2)).unwrap();
    send(&b, PortEvent::Disconnect).unwrap();
    assert_eq!(recv(&mut input).unwrap(), Some(1));
    assert_eq!(
        recv(&mut input),
        Err(RecvError::ProducerCardinalityUnderflow {
            output: OutputPortId(2),
            minimum: 1,
            received: 0
        })
    );
    assert_eq!(recv(&mut input).unwrap(), None);
    assert_eq!(a.state(), PortState::Disconnected);
}

#[test]
fn aggregate_shortfall_is_reported_after_optional_sources_end() {
    let (a, b, mut input) = merge(2, limits(-1, 3), Cardinality::unlimited(), Cardinality::unlimited());
    send(&a, PortEvent::Message(1)).unwrap();
    send(&b, PortEvent::Message(2)).unwrap();
    drop(a);
    drop(b);
    assert_eq!(recv(&mut input).unwrap(), Some(1));
    assert_eq!(recv(&mut input).unwrap(), Some(2));
    assert_eq!(
        recv(&mut input),
        Err(RecvError::CardinalityUnderflow { minimum: 3, received: 2 })
    );
}

#[test]
fn projections_split_the_total_between_producers() {
    let ranges = projected_ranges(
        limits(3, 2),
        &[(OutputPortId(1), limits(-1, 1)), (OutputPortId(2), limits(-1, 1))],
    )
    .unwrap();
    assert_eq!(ranges, vec![limits(2, 1), limits(2, 1)]);
    let ranges = projected_ranges(
        limits(5, 2),
        &[(OutputPortId(1), limits(3, 1)), (OutputPortId(2), limits(3, 1))],
    )
    .unwrap();
    assert_eq!(ranges, vec![limits(3, 1), limits(3, 1)]);
    let ranges = projected_ranges(
        limits(4, 3),
        &[(OutputPortId(1), limits(1, 0)), (OutputPortId(2), Cardinality::unlimited())],
    )
    .unwrap();
    assert_eq!(ranges, vec![limits(1, 0), limits(4, 2)]);
    let ranges = projected_ranges(limits(-1, 0), &[(OutputPortId(1), limits(2, 1))]).unwrap();
    assert_eq!(ranges, vec![limits(2, 1)]);
    assert_eq!(projected_ranges(limits(2, 0), &[]).unwrap(), vec![]);
}

#[test]
fn projections_that_leave_no_room_are_refused() {
    assert_eq!(
        projected_ranges(
            limits(1, 0),
            &[(OutputPortId(1), limits(-1, 1)), (OutputPortId(2), limits(-1, 1))],
        ),
        Err(SystemPrepareError::FanInCardinalityOverflow)
    );
    assert!(matches!(
        connect::<u8>(
            1,
            limits(1, 0),
            &[(OutputPortId(1), limits(-1, 1)), (OutputPortId(2), limits(-1, 1))],
        ),
        Err(SystemPrepareError::FanInCardinalityOverflow)
    ));
}

#[test]
fn a_merged_connection_hands_out_one_output_per_producer() {
    let group = connect::<u8>(
        2,
        limits(4, 0),
        &[(OutputPortId(5), Cardinality::unlimited()), (OutputPortId(9), limits(1, 0))],
    )
    .unwrap();
    assert_eq!(group.outputs.len(), 2);
    assert_eq!(group.outputs[0].0, OutputPortId(5));
    assert_eq!(group.outputs[0].1, limits(4, 0));
    assert_eq!(group.outputs[1].0, OutputPortId(9));
    assert_eq!(group.outputs[1].1, limits(1, 0));
    assert_eq!(group.outputs[1].2.cardinality(), limits(1, 0));
    assert_eq!(group.input.len(), 2);
    assert_eq!(group.input.cardinality(), limits(4, 0));
    assert_eq!(group.input.state(), PortState::Connected);
    assert_eq!(group.input.capacity(true), Some(4));
    assert!(group.input.is_empty());
    assert!(group.input.check_minima().is_ok());
}

#[test]
fn closing_a_merged_input_closes_every_source() {
    let (a, b, mut input) = merge(2, Cardinality::unlimited(), Cardinality::unlimited(), Cardinality::unlimited());
    send(&a, PortEvent::Message(1)).unwrap();
    input.close();
    assert_eq!(input.state(), PortState::Closed);
    assert_eq!(recv(&mut input).unwrap(), None);
    assert_eq!(a.state(), PortState::Disconnected);
    assert_eq!(b.state(), PortState::Disconnected);
    assert_eq!(input.capacity(false), None);
}

#[test]
fn source_minimums_are_checked_in_order() {
    let (_a, _b, input) = merge(2, Cardinality::unlimited(), limits(-1, 1), limits(-1, 2));
    assert_eq!(
        input.check_minima(),
        Err(RecvError::ProducerCardinalityUnderflow {
            output: OutputPortId(1),
            minimum: 1,
            received: 0
        })
    );
}

#[test]
fn capacities_add_up_and_saturate() {
    assert_eq!(sum_capacities(&vec![]), None);
    assert_eq!(sum_capacities(&vec![None, Some(2), None, Some(3)]), Some(5));
    assert_eq!(sum_capacities(&vec![Some(usize::MAX), Some(1)]), Some(usize::MAX));
}
