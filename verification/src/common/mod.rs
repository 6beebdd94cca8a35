//! The event-sourcing core shared by every aggregate.

pub mod error;
pub mod aggregate;
pub mod executor;
pub mod projection;
pub mod id_set;
