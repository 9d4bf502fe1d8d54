pub mod committee;
pub mod elections;
pub mod errors;
pub mod governance;
pub mod identities;
pub mod identity;
pub mod types;
