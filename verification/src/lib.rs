//! Session controller for a terminal one-time-password viewer.
//!
//! The crate owns on-screen navigation, live filtering of the credential
//! list, rotation-synchronized refresh, and the modal confirmation workflow
//! for destructive actions.  Terminal drawing itself is left to the host,
//! which consumes the pure render plan this library produces.

pub mod app;
pub mod enums;
pub mod otp_element;
pub mod popup;
pub mod render;
pub mod search;
pub mod table;
