//! The versioned text formats of invite keys and message keys.
pub mod framing;
pub mod registry;
pub mod roundtrip;
pub mod traits;
pub mod types;
pub mod v1;

pub use registry::{create_invite, create_message, parse_invite, parse_message};
pub use types::{CreateInviteInput, CreateMessageInput, InviteDetails, MessageDetails};
