//! Errors reported by ports.

mod recv_error;
pub use recv_error::RecvError;

mod send_error;
pub use send_error::SendError;

mod try_recv_error;
pub use try_recv_error::TryRecvError;

mod try_send_error;
pub use try_send_error::TrySendError;

mod error;
pub use error::{Error, Result};
