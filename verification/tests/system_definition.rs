use async_flow::model::{BlockDefinition, InputPortId, OutputPortId, PortId, SystemDefinition, SystemValidationError};
use std::any::TypeId;

#[test]
fn invalid_ids_are_rejected_in_declarations_exports_and_connections() {
    for port in [
        PortId::Input(InputPortId(0)),
        PortId::Input(InputPortId(1)),
        PortId::Output(OutputPortId(0)),
        PortId::Output(OutputPortId(-1)),
    ] {
        for location in 0..3 {
            let mut graph = SystemDefinition::default();
            match (port, location) {
                (PortId::Input(id), 0) => {
                    graph.registered_inputs.insert(id);
                },
                (PortId::Output(id), 0) => {
                    graph.registered_outputs.insert(id);
                },
                (PortId::Input(id), 1) => {
                    graph.inputs.insert(id, TypeId::of::<u8>());
                },
                (PortId::Output(id), 1) => {
                    graph.outputs.insert(id, TypeId::of::<u8>());
                },
                (PortId::Input(id), _) => {
                    graph.registered_outputs.insert(OutputPortId(1));
                    graph
                        .connections
                        .insert((OutputPortId(1), id), TypeId::of::<u8>());
                },
                (PortId::Output(id), _) => {
                    graph.registered_inputs.insert(InputPortId(-1));
                    graph
                        .connections
                        .insert((id, InputPortId(-1)), TypeId::of::<u8>());
                },
            }
            assert_eq!(
                graph.validate(),
                Err(SystemValidationError::InvalidPortId(port))
            );
        }
    }
}

struct Relay;

impl BlockDefinition for Relay {
    fn name(&self) -> String {
        "relay".to_string()
    }

    fn inputs(&self) -> Vec<InputPortId> {
        vec![InputPortId(-4), InputPortId(-2)]
    }

    fn outputs(&self) -> Vec<OutputPortId> {
        vec![OutputPortId(3)]
    }

    fn input_cardinality(&self, _input: InputPortId) -> Option<async_flow::io::Cardinality> {
        Some(async_flow::io::Cardinality::oneshot())
    }
}

#[test]
fn registering_a_block_records_its_ports_and_keeps_the_block() {
    let mut builder = async_flow::model::SystemBuilder::new();
    let block = builder.register(Relay);
    assert_eq!(block.name(), "relay");
    let definition = builder.build();
    assert_eq!(definition.blocks.len(), 1);
    let handle = &definition.blocks[0];
    assert_eq!(handle.name(), "relay");
    assert_eq!(handle.inputs(), vec![InputPortId(-4), InputPortId(-2)]);
    assert_eq!(handle.outputs(), vec![OutputPortId(3)]);
    assert_eq!(handle.inputs[1].cardinality, Some(async_flow::io::Cardinality::oneshot()));
    assert_eq!(handle.outputs[0].cardinality, None);
    assert!(definition.registered_inputs.is_empty());
}
