//! The aggregates of the platform and the events that change them.

pub mod perm;
pub mod post;
pub mod role;
pub mod tag;
pub mod taxonomy;
pub mod user;
pub mod user_profile;

pub use perm::{Perm, PermApplyError};
pub use post::{Post, PostApplyError};
pub use role::{Role, RoleApplyError};
pub use tag::{Tag, TagApplyError};
pub use taxonomy::{Taxonomy, TaxonomyApplyError};
pub use user::{User, UserApplyError};
pub use user_profile::{UserProfile, UserProfileError};
