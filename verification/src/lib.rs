//! The decisions of a desktop application shell: what to set up at startup,
//! and how a check for a newer release and its installation proceed.
//!
//! Nothing here touches a window, a network or a clock. The program around
//! this library carries out what the functions ask for and hands back what
//! happened; every function is a total map from plain values to plain values,
//! with a contract that pins its result.

pub mod bootstrap;
pub mod messages;
pub mod orchestrator;
pub mod platform;
pub mod progress;
pub mod release;
pub mod text;
