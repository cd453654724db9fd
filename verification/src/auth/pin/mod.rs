//! PIN-based unlock: config enforcement, lockout policy and the PAM
//! conversation.

pub mod enforce;
pub mod gate;
pub mod pam;
pub mod policy;

pub use enforce::{book_lists, validate_content, ConfigError, ServiceConfig, SERVICE_NAME};
pub use gate::Gate;
pub use policy::Policy;
pub use pam::PinConversation;
