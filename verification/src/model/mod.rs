//! Structural definitions of systems, blocks, and ports.

mod port_id;
pub use port_id::{
    abs_usize, next_input_counter,
    next_output_counter, InputPortId, OutputPortId, PortId,
};

mod port_key;
pub use port_key::{key_less, key_lt, KeyTriple, PortKey};

mod port_id_map;
pub use port_id_map::{
    entries_map, entry_keys, has_key, is_greatest, is_least, lemma_entries_map_at,
    lemma_entries_map_len, sorted_entries, PortIdMap,
};

mod port_id_set;
pub use port_id_set::PortIdSet;

mod type_id;
pub(crate) use type_id::{same_type, type_id_of};

mod inputs;
pub use inputs::Inputs;

mod outputs;
pub use outputs::Outputs;

mod port_registration;
pub use port_registration::PortRegistration;

mod port_export;
pub use port_export::PortExport;

mod block_definition;
pub use block_definition::BlockDefinition;

mod system_validation_error;
pub use system_validation_error::SystemValidationError;

mod system_definition;
pub use system_definition::{
    greatest_id, id_bounds, least_id, port_range, tight_range, BlockHandle, InputMetadata, OutputMetadata,
    SystemDefinition,
};

mod validation;
mod validation_facts;
pub use validation_facts::{
    block_ports, lemma_validated_block_ports_distinct, lemma_validated_outputs_connected_once,
    step_claims, step_connections, is_plain_step,
};
pub use validation::{
    add_producer, aggregate_producers, apply_step, card_of, check_id, connection_cardinalities,
    first_failure, producer_bounds, producer_fails, producer_result, validate_definition,
    validation_outcome, validation_plan, validation_steps, ValidatedPorts, constrain_bound, constrain_type, declare,
    empty_model, has_unbounded, is_declared, lemma_connections_declared, known_type, lemma_sum_maxes_prefix_monotone,
    lemma_sum_mins_nonneg, lemma_sum_mins_prefix_monotone, run_steps, set_type, sum_maxes, sum_mins,
    unlimited_cardinality, PortsModel,
    ValidationState, ValidationStep,
};

mod system_builder;
pub use system_builder::{recorded_cardinalities, registers_input, registers_output, SystemBuildError, SystemBuilder};
