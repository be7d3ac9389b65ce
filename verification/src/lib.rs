//! A reactive endpoint runtime core: timers, publish/subscribe channels,
//! request/response services and outgoing clients are registered against an
//! external messaging transport, and their events are dispatched through user
//! callbacks that read and mutate one piece of shared application state.
//!
//! This crate verifies the callback-dispatch core: the endpoint registry, the
//! per-event dispatcher with its failure isolation, the pending-call state
//! machine of outgoing requests, and the run loop that folds a bounded batch
//! of transport events through the registered callbacks. The transport itself
//! (topic delivery, service wiring, clocks, parameters) is an external
//! collaborator: a host program pumps it and hands the resulting events to
//! [`Node::spin`] as plain values.

pub mod adder;
pub mod data;
pub mod endpoint;
pub mod event;
pub mod executor;
pub mod laws;
pub mod message;
pub mod model;
pub mod node;
pub mod outcome;
pub mod pending;
pub mod publisher;
pub mod state;
