//! Creation of a logon-triggered scheduled task against a host task scheduler.
//!
//! The library verifies the decision logic of the whole operation: parsing
//! textual identifiers, scanning a registration database for the scheduler's
//! class and interface identifiers, and driving the multi-stage construction
//! and registration of a task definition with an exact release discipline for
//! every acquired object handle.  The host side (registry reads, automation
//! runtime calls) is abstracted as plain data handed in by the caller.

pub mod builder;
pub mod guid;
pub mod host;
pub mod registry;
pub mod hexfmt;
pub mod text;

pub use builder::create_task;
