//! The verified core of Fuchsia, an actor-based dataflow runtime.
//!
//! A workflow is a graph of actors; the runtime owns each actor's receive loop.
//! This crate holds everything the runtime *decides* and *computes*, stated in
//! contracts and proved: what a delivery carries and how its outcome is
//! reported, which deliveries are quarantined, what a failure policy does with
//! an error, when a crashed node is rebuilt and when it dies, which workflow
//! nodes are ready and what each of them is handed. Tasks, timers, channels and
//! the database are driven by the host around it.
//!
//! - Messages and their delivery: [`actor`], [`correlation`], [`delivery`],
//!   [`dead_letter`], [`mailbox`], [`schedule`].
//! - Running actors: [`registry`], [`policy`], [`supervisor`], [`runtime`],
//!   [`error`].
//! - Workflows: [`workflow`] for their definitions, [`locked`] and
//!   [`orchestrator`] for their execution, [`components`] for the guests.
//! - Values underneath: [`json`], [`table`], [`text`], [`counter`].

pub mod actor;
pub mod components;
pub mod correlation;
pub mod counter;
pub mod dead_letter;
pub mod delivery;
pub mod error;
pub mod json;
pub mod locked;
pub mod mailbox;
pub mod orchestrator;
pub mod policy;
pub mod registry;
pub mod runtime;
pub mod schedule;
pub mod supervisor;
pub mod table;
pub mod text;
pub mod workflow;
