//! A registry of launchable applications and of the processes started from it.
//!
//! The library decides; the program around it acts. Every operation that
//! touches the operating system is split in two: a function that turns the
//! current state into a command to run, and a function that takes what the
//! operating system answered and updates the bookkeeping.

pub mod command;
pub mod definition;
pub mod error;
pub mod ident;
pub mod launcher;
pub mod registry;
pub mod startup;
pub mod stopper;
pub mod text;
