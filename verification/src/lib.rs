//! Keeps a scene object in step with the UI element that frames it.
//!
//! The crate holds the rules of that link as plain data in and plain data out:
//! the registry of associations, the pass that builds them from declarations,
//! and the pass that decides, each frame, which snapshots have to be written.
//! The host runtime that stores components and performs the commands is left
//! to the embedding application.

pub mod command;
pub mod component;
pub mod entity;
pub mod error;
pub mod math;
pub mod prelude;
pub mod resource;
pub mod system;
pub mod ui;
