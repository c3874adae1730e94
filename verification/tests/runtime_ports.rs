use async_flow::bounded::bounded;
use async_flow::io::{Cardinality, PortState};
use async_flow::model::{InputPortId, OutputPortId, PortId, PortIdSet};
use async_flow::model::Inputs as InputsDescriptor;
use async_flow::model::Outputs as OutputsDescriptor;
use async_flow::tokio::{BlockPorts, Channel, PortBindingError, PortSlot, RuntimePorts};
use std::any::TypeId;

fn limits(max: isize, min: isize) -> Cardinality {
    Cardinality::from_limits(max, min)
}

#[test]
fn an_endpoint_is_claimed_exactly_once() {
    let mut slot: PortSlot<u32> = PortSlot::new(None, Cardinality::unlimited());
    slot.install(7, limits(3, 1));
    let port = PortId::Input(InputPortId(-1));
    assert_eq!(
        slot.take(port, TypeId::of::<u8>(), Cardinality::unlimited()),
        Ok((Some(7), limits(3, 1)))
    );
    assert!(slot.claimed);
    assert_eq!(slot.type_id, Some(TypeId::of::<u8>()));
    assert_eq!(
        slot.take(port, TypeId::of::<u8>(), Cardinality::unlimited()),
        Err(PortBindingError::AlreadyClaimed(port))
    );
}

#[test]
fn mismatched_types_and_bounds_are_refused() {
    let port = PortId::Output(OutputPortId(4));
    let mut typed: PortSlot<u32> = PortSlot::new(Some(TypeId::of::<u16>()), Cardinality::unlimited());
    assert_eq!(
        typed.take(port, TypeId::of::<u8>(), Cardinality::unlimited()),
        Err(PortBindingError::TypeMismatch {
            port,
            expected: TypeId::of::<u16>(),
            requested: TypeId::of::<u8>(),
        })
    );
    assert!(!typed.claimed);
    let mut bounded: PortSlot<u32> = PortSlot::new(None, limits(2, 0));
    assert_eq!(
        bounded.take(port, TypeId::of::<u8>(), limits(-1, 3)),
        Err(PortBindingError::CardinalityMismatch {
            port,
            effective: limits(2, 0),
            requested: limits(-1, 3),
        })
    );
    let mut connected: PortSlot<u32> = PortSlot::new(None, Cardinality::unlimited());
    connected.install(1, limits(5, 0));
    assert_eq!(
        connected.take(port, TypeId::of::<u8>(), limits(3, 0)),
        Err(PortBindingError::CardinalityMismatch {
            port,
            effective: limits(5, 0),
            requested: limits(3, 0),
        })
    );
    let mut open: PortSlot<u32> = PortSlot::new(None, limits(5, 0));
    assert_eq!(open.take(port, TypeId::of::<u8>(), limits(3, 1)), Ok((None, limits(3, 1))));
}

#[test]
fn runtime_ports_bind_by_id_and_scope() {
    let mut ports = RuntimePorts::<u8>::new(TypeId::of::<u8>());
    let channel = Channel::<u8>::bounded(1);
    let mut input_slot = PortSlot::new(Some(TypeId::of::<u8>()), Cardinality::unlimited());
    input_slot.install(channel.rx, Cardinality::unlimited());
    ports.inputs.insert(InputPortId(-1), input_slot);
    ports.outputs.insert(OutputPortId(1), PortSlot::new(None, limits(2, 0)));
    ports
        .input_senders
        .insert(InputPortId(-1), PortSlot::new(None, Cardinality::unlimited()));

    assert!(matches!(
        ports.take_input(InputPortId(-9), Cardinality::unlimited()),
        Err(PortBindingError::UnknownPort(PortId::Input(InputPortId(-9))))
    ));
    assert!(matches!(
        ports.take_output_receiver(OutputPortId(1), Cardinality::unlimited()),
        Err(PortBindingError::NotExported(PortId::Output(OutputPortId(1))))
    ));
    let sender = ports.take_input_sender(InputPortId(-1), Cardinality::unlimited()).unwrap();
    assert_eq!(sender.state(), PortState::Unconnected);

    let mut block_inputs = PortIdSet::new();
    block_inputs.insert(InputPortId(-1));
    let mut block_outputs = PortIdSet::new();
    block_outputs.insert(OutputPortId(1));
    let mut block = BlockPorts::new(&mut ports, &block_inputs, &block_outputs);
    let foreign = InputsDescriptor::<u8>::new(InputPortId(-2));
    assert!(matches!(
        block.take_input(&foreign),
        Err(PortBindingError::ForeignPort(PortId::Input(InputPortId(-2))))
    ));
    let input = block.take_input(&InputsDescriptor::<u8>::new(InputPortId(-1))).unwrap();
    assert_eq!(input.state(), PortState::Connected);
    assert!(matches!(
        block.take_input(&InputsDescriptor::<u8>::new(InputPortId(-1))),
        Err(PortBindingError::AlreadyClaimed(PortId::Input(InputPortId(-1))))
    ));
    let output = block
        .take_output(&OutputsDescriptor::<u8>::with_cardinality(OutputPortId(1), limits(1, 0)))
        .unwrap();
    assert_eq!(output.state(), PortState::Unconnected);
    assert_eq!(output.cardinality(), limits(1, 0));
    assert!(matches!(
        ports.take_output(OutputPortId(1), Cardinality::unlimited()),
        Err(PortBindingError::AlreadyClaimed(PortId::Output(OutputPortId(1))))
    ));
}

#[test]
fn plain_bounded_channels_carry_values() {
    let (output, mut input) = bounded::<u8>(2);
    output.as_sender().try_send(3).unwrap();
    assert_eq!(input.as_receiver_mut().try_recv().unwrap(), 3);
    assert!(input.as_receiver().is_empty());
    drop(output);
    assert!(input.receiver.try_recv().is_err());
}
