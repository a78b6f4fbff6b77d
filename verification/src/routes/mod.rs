//! The operations the service exposes: registration, confirmation, and the
//! authenticated newsletter broadcast.

pub mod newsletters;
pub mod subscriptions;
pub mod subscriptions_confirm;

pub use subscriptions::error_chain_fmt;
