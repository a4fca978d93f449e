//! Business identities, one per owning principal: the record, the rules by
//! which it is created and updated, and the address at which it is stored.

pub mod address;
pub mod clock;
pub mod guarantees;
pub mod instructions;
pub mod record;

pub use crate::address::IDENTITY_SEED;
pub use crate::instructions::create_identity;
pub use crate::instructions::update_identity;
pub use crate::instructions::CreateIdentity;
pub use crate::instructions::IdentityAccount;
pub use crate::instructions::Rejection;
pub use crate::instructions::UpdateIdentity;
pub use crate::record::BusinessIdentity;
pub use crate::record::IdentityError;
pub use crate::record::MAX_LOGO_URI_LENGTH;
pub use crate::record::MAX_NAME_LENGTH;
