//! Linking this client as a secondary device: the provisioning states, their
//! errors, the QR code shown to the user, and the rules of the linking flow.
pub mod state;
pub mod error;
pub mod qr;

pub mod flow;
