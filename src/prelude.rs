//! The items that most users of the crate need.
pub use crate::client::Client;
pub use crate::exchange::{Action, ClientMode, Exchange, Outcome};
pub use crate::status_code::{StatusCode, StatusCodeKind};
