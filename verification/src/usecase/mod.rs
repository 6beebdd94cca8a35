//! The decisions of the application's use cases, between the store reads
//! that feed them and the commits that follow them.

pub mod iam;
pub mod post;
pub mod taxonomy;
