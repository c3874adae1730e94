use async_flow::error::Error;
use async_flow::io::{Cardinality, PortEvent, PortState};
use async_flow::model::{
    InputPortId, Inputs, OutputPortId, Outputs, PortId, PortRegistration, SystemBuildError, SystemBuilder,
    SystemDefinition, SystemValidationError,
};
use async_flow::tokio::{SystemPorts, SystemPrepareError};
use std::any::{Any, TypeId};

type Message = valuand::Value<Box<dyn Any + Send + Sync>>;

fn prepare(definition: &SystemDefinition) -> Result<SystemPorts<Message>, SystemPrepareError> {
    definition.prepare::<Message>(TypeId::of::<Message>())
}

fn graph() -> SystemDefinition {
    let mut builder = SystemBuilder::new();
    builder.register_input(InputPortId(-1).into());
    builder.register_output(OutputPortId(1).into());
    let mut graph = builder.build();
    graph
        .connections
        .insert((OutputPortId(1), InputPortId(-1)), TypeId::of::<Message>());
    graph
}

#[test]
fn empty_and_one_sided_graphs_prepare_without_a_runtime() {
    let empty = prepare(&SystemDefinition::default()).unwrap();
    assert!(empty.inputs.is_empty());
    assert!(empty.outputs.is_empty());
    for inputs in [true, false] {
        let mut builder = SystemBuilder::new();
        if inputs {
            builder.register_input(InputPortId(isize::MIN).into());
        } else {
            builder.register_output(OutputPortId(isize::MAX).into());
        }
        let system = prepare(&builder.build()).unwrap();
        assert_eq!(system.inputs.len(), usize::from(inputs));
        assert_eq!(system.outputs.len(), usize::from(!inputs));
        if inputs {
            assert_eq!(system.inputs[0].state(), PortState::Unconnected);
        } else {
            assert_eq!(system.outputs[0].state(), PortState::Unconnected);
        }
    }
}

#[test]
fn sparse_extreme_ids_use_dense_storage_and_keep_connections_distinct() {
    let mut definition = graph();
    definition.registered_inputs.insert(InputPortId(isize::MIN));
    definition.registered_outputs.insert(OutputPortId(isize::MAX));
    definition.connections.clear();
    definition.connections.insert(
        (OutputPortId(1), InputPortId(isize::MIN)),
        TypeId::of::<Message>(),
    );
    definition.connections.insert(
        (OutputPortId(isize::MAX), InputPortId(-1)),
        TypeId::of::<Message>(),
    );
    let mut system = prepare(&definition).unwrap();
    assert_eq!(system.inputs.len(), 2);
    assert_eq!(system.outputs.len(), 2);
    assert_eq!(system.input_indices.len(), 2);
    assert_eq!(system.output_indices.len(), 2);

    let first_output = *system.output_indices.get(&OutputPortId(1)).unwrap();
    let second_output = *system.output_indices.get(&OutputPortId(isize::MAX)).unwrap();
    system.outputs[first_output]
        .sender()
        .unwrap()
        .try_send(PortEvent::Connect)
        .unwrap();
    system.outputs[second_output]
        .sender()
        .unwrap()
        .try_send(PortEvent::Message(Message::default()))
        .unwrap();
    system.outputs.clear();
    let first = *system.input_indices.get(&InputPortId(isize::MIN)).unwrap();
    let second = *system.input_indices.get(&InputPortId(-1)).unwrap();
    let event = system.inputs[first].receiver_mut().unwrap().try_recv().unwrap();
    assert!(matches!(
        system.inputs[first].complete_recv(Some(event)).unwrap(),
        Some(PortEvent::Connect)
    ));
    let event = system.inputs[second].receiver_mut().unwrap().try_recv().unwrap();
    assert!(matches!(
        system.inputs[second].complete_recv(Some(event)).unwrap(),
        Some(PortEvent::Message(_))
    ));
    for index in [first, second] {
        assert!(system.inputs[index].receiver_mut().unwrap().try_recv().is_err());
        assert!(system.inputs[index].complete_recv(None).unwrap().is_none());
    }
}

#[test]
fn fan_in_is_rejected_instead_of_overwriting_a_receiver() {
    let mut graph = graph();
    graph.registered_outputs.insert(OutputPortId(2));
    graph
        .connections
        .insert((OutputPortId(2), InputPortId(-1)), TypeId::of::<Message>());
    graph.validate().unwrap();
    assert!(matches!(
        prepare(&graph),
        Err(SystemPrepareError::UnsupportedFanIn(InputPortId(-1)))
    ));
}

#[test]
fn arbitrary_types_are_not_silently_replaced_with_message() {
    let mut graph = graph();
    graph
        .connections
        .insert((OutputPortId(1), InputPortId(-1)), TypeId::of::<u8>());
    graph.validate().unwrap();
    assert!(
        matches!(prepare(&graph), Err(SystemPrepareError::UnsupportedMessageType { type_id, .. }) if type_id == TypeId::of::<u8>())
    );
}

#[test]
fn preparation_revalidates_public_fields_after_edits() {
    let mut graph = graph();
    graph.validate().unwrap();
    graph.inputs.insert(InputPortId(-1), TypeId::of::<u8>());
    let error = prepare(&graph).err().unwrap();
    assert!(matches!(
        error,
        SystemPrepareError::InvalidDefinition(SystemValidationError::TypeMismatch {
            port: PortId::Input(InputPortId(-1)),
            ..
        })
    ));
    assert!(matches!(Error::from(error), Error::Prepare(_)));
}

#[test]
fn an_undeclared_id_inside_the_numeric_range_is_still_invalid() {
    let mut graph = graph();
    graph.registered_inputs.insert(InputPortId(-3));
    graph.connections.clear();
    graph
        .connections
        .insert((OutputPortId(1), InputPortId(-2)), TypeId::of::<Message>());
    assert!(matches!(
        prepare(&graph),
        Err(SystemPrepareError::InvalidDefinition(
            SystemValidationError::UnregisteredPort(PortId::Input(InputPortId(-2)))
        ))
    ));
}

#[test]
fn prepared_indices_follow_increasing_port_ids() {
    let mut builder = SystemBuilder::new();
    for id in [-5, -1, -3] {
        builder.register_input(InputPortId(id).into());
    }
    for id in [7, 2] {
        builder.register_output(OutputPortId(id).into());
    }
    let mut graph = builder.build();
    graph
        .connections
        .insert((OutputPortId(7), InputPortId(-3)), TypeId::of::<u64>());
    let system = SystemPorts::<u64>::prepare(&graph, TypeId::of::<u64>()).unwrap();
    assert_eq!(system.input_indices.get(&InputPortId(-5)), Some(&0));
    assert_eq!(system.input_indices.get(&InputPortId(-3)), Some(&1));
    assert_eq!(system.input_indices.get(&InputPortId(-1)), Some(&2));
    assert_eq!(system.output_indices.get(&OutputPortId(2)), Some(&0));
    assert_eq!(system.output_indices.get(&OutputPortId(7)), Some(&1));
    assert_eq!(system.inputs[1].state(), PortState::Connected);
    assert_eq!(system.inputs[0].state(), PortState::Unconnected);
    assert_eq!(system.inputs[2].state(), PortState::Unconnected);
    assert_eq!(system.outputs[1].state(), PortState::Connected);
    assert_eq!(system.outputs[0].state(), PortState::Unconnected);
}

#[test]
fn the_first_failing_connection_in_key_order_is_reported() {
    let mut builder = SystemBuilder::new();
    builder.register_input(InputPortId(-1).into());
    builder.register_input(InputPortId(-2).into());
    for id in [1, 2, 3] {
        builder.register_output(OutputPortId(id).into());
    }
    let mut graph = builder.build();
    graph
        .connections
        .insert((OutputPortId(3), InputPortId(-1)), TypeId::of::<u64>());
    graph
        .connections
        .insert((OutputPortId(2), InputPortId(-2)), TypeId::of::<u8>());
    graph
        .connections
        .insert((OutputPortId(1), InputPortId(-1)), TypeId::of::<u64>());
    assert_eq!(
        SystemPorts::<u64>::prepare(&graph, TypeId::of::<u64>()).err(),
        Some(SystemPrepareError::UnsupportedMessageType {
            port: PortId::Output(OutputPortId(2)),
            type_id: TypeId::of::<u8>(),
        })
    );
}


#[test]
fn connecting_records_both_ports_cardinalities() {
    let mut builder = SystemBuilder::new();
    builder.register_output(OutputPortId(5).into());
    builder.register_input(InputPortId(-5).into());
    let output = Outputs::<u8>::with_cardinality(OutputPortId(5), Cardinality::from_limits(3, 1));
    let input = Inputs::<u8>::with_cardinality(InputPortId(-5), Cardinality::oneshot());
    assert_eq!(builder.connect(&output, &input), Ok(true));
    assert_eq!(
        builder.connect(&output, &input),
        Err(SystemBuildError::AlreadyConnectedOutput(OutputPortId(5)))
    );
    let definition = builder.build();
    assert_eq!(
        definition.cardinalities.get(&PortId::Output(OutputPortId(5))),
        Some(&vec![Cardinality::from_limits(3, 1)])
    );
    assert_eq!(
        definition.cardinalities.get(&PortId::Input(InputPortId(-5))),
        Some(&vec![Cardinality::oneshot()])
    );
    assert_eq!(
        definition.connections.get(&(OutputPortId(5), InputPortId(-5))),
        Some(&TypeId::of::<u8>())
    );
    assert!(definition.registered_inputs.contains(InputPortId(-5)));
    assert!(definition.registered_outputs.contains(OutputPortId(5)));
}

#[test]
fn registering_a_raw_port_id_matches_the_typed_registration() {
    let mut by_port = SystemBuilder::new();
    by_port.register_port(PortRegistration::from(PortId::Input(InputPortId(-7))));
    by_port.register_port(PortRegistration::from(PortId::Output(OutputPortId(7))));
    let mut typed = SystemBuilder::new();
    typed.register_input(InputPortId(-7).into());
    typed.register_output(OutputPortId(7).into());
    let (a, b) = (by_port.build(), typed.build());
    assert_eq!(a.registered_inputs.len(), b.registered_inputs.len());
    assert_eq!(a.registered_outputs.len(), b.registered_outputs.len());
    assert!(a.registered_inputs.contains(InputPortId(-7)));
    assert!(a.registered_outputs.contains(OutputPortId(7)));
    assert_eq!(a.cardinalities.len(), 0);
    assert_eq!(b.cardinalities.len(), 0);
}

#[test]
fn prepared_ports_carry_their_effective_bounds() {
    let mut builder = SystemBuilder::new();
    builder.register_output(PortRegistration { id: OutputPortId(1), cardinality: Some(Cardinality::from_limits(3, 0)) });
    builder.register_input(PortRegistration { id: InputPortId(-1), cardinality: Some(Cardinality::from_limits(2, 1)) });
    builder.register_input(PortRegistration { id: InputPortId(-9), cardinality: Some(Cardinality::oneshot()) });
    builder.register_output(OutputPortId(4).into());
    let mut definition = builder.build();
    definition
        .connections
        .insert((OutputPortId(1), InputPortId(-1)), TypeId::of::<Message>());
    let ports = prepare(&definition).unwrap();
    let connected_input = &ports.inputs[*ports.input_indices.get(&InputPortId(-1)).unwrap()];
    let connected_output = &ports.outputs[*ports.output_indices.get(&OutputPortId(1)).unwrap()];
    assert_eq!(connected_input.cardinality(), Cardinality::from_limits(2, 1));
    assert_eq!(connected_output.cardinality(), Cardinality::from_limits(2, 1));
    assert_eq!(connected_input.state(), PortState::Connected);
    let placeholder = &ports.inputs[*ports.input_indices.get(&InputPortId(-9)).unwrap()];
    assert_eq!(placeholder.cardinality(), Cardinality::oneshot());
    assert_eq!(placeholder.state(), PortState::Unconnected);
    let free_output = &ports.outputs[*ports.output_indices.get(&OutputPortId(4)).unwrap()];
    assert_eq!(free_output.cardinality(), Cardinality::unlimited());
    assert_eq!(free_output.state(), PortState::Unconnected);
}
