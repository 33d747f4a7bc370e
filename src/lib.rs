//! Interaction controller of a keyboard-driven launcher, with its working
//! set of items, the projection that the window draws from, and a bounded
//! clipboard history exposed as an item provider.

pub mod clipboard;
pub mod context;
pub mod controller;
pub mod error;
pub mod item;
pub mod keys;
pub mod projection;
pub mod status;
pub mod text;
