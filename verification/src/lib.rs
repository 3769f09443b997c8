//! Session state machine of a deployment dashboard.
//!
//! The crate owns the session record, the rules by which operator and timer
//! events change it, and the parsing of a host inventory. Everything that
//! touches a browser (timers, fetches, storage, the console) is described as
//! an effect for the embedding program to perform.

pub mod data;
pub mod event;
pub mod filter;
pub mod inventory;
pub mod laws;
pub mod model;
pub mod render;
pub mod text;
