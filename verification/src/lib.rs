//! Domain core of the Jimo content platform: permission codes, event-sourced
//! aggregates and the context that applies, records and replays their events.

pub mod perm_code;
pub mod external;
pub mod common;
pub mod aggregate;
pub mod projection;
pub mod usecase;
pub mod conf;
pub mod server;
pub mod text;
