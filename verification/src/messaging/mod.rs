pub mod types;
pub mod wire;
pub mod parse;
pub mod naming;
pub mod outgoing;
pub mod files;
pub mod listing;
