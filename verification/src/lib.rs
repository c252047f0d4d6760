//! Verified core of the SignalUI desktop client: message parsing, call
//! signalling, provisioning and keychain decisions.
pub mod messaging;
pub mod text;
pub mod codec;
pub mod calling;
pub mod provisioning;
pub mod pair_flow;
pub mod store;
pub mod account;
pub mod settings;
pub mod cli;
pub mod backups;
