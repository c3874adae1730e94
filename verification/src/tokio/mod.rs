//! The Tokio backend: runtime ports, budgets, and system preparation.

mod sync;
pub use sync::max_channel_buffer;
pub(crate) use sync::mpsc_channel;

mod quota;
pub use quota::{
    check_counts, increment_below, quota_verdict, spare_budget, GroupBudget, GroupReading, Quota,
};

mod system_prepare_error;
pub use system_prepare_error::SystemPrepareError;

mod port_binding_error;
pub use port_binding_error::PortBindingError;

mod fan_in;
pub use fan_in::{
    connect, fan_in_feasible, finite_total, project_bounds, projected_cards, projected_range,
    projected_ranges, projection_of, source_cards, FanInConnection,
};

mod inputs;
pub use inputs::{
    count_after_message, end_report, ends_stream, message_of, receives, shortfall, tally, InputPortState,
    InputStage,
    Inputs,
};

mod merged_inputs;
pub use merged_inputs::{
    capacity_total, delivers, first_shortfall, poll_sequence, retires, same_stream, settled_report,
    sum_capacities,
    MergedInputs,
};

mod outputs;
pub use outputs::{OutputPortState, Outputs};

mod channel;
pub use channel::{Channel, ONESHOT, UNLIMITED};

mod preparation;
pub use preparation::{connection_check, dense_indices, entry_error, preparation_error, SystemPorts};

mod runtime_ports;
pub use runtime_ports::{claim_outcome, BlockPorts, PortSlot, RuntimePorts};
