//! Port-level vocabulary shared by every backend.

mod bound;

mod cardinality;
pub use cardinality::{
    max_usize, meet_bounds, min_usize, sum_bounds, valid_bounds, Cardinality, CardinalityBounds,
};

mod port_event;
pub use port_event::PortEvent;

mod port_state;
pub use port_state::{PortDirection, PortState};

mod connection;
pub use connection::{Connection, Scheduler};
