//! Secrets kept outside the message store.
pub mod keychain;
pub mod memory;
