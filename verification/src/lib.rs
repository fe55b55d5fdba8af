//! Decision logic of a sequencer's consensus context: the adapter between a
//! height/round driven consensus engine and a local block builder.
//!
//! Every collaborator (batcher, network, oracles, blob store, state sync) is
//! reached by the embedding program. This library holds the rules: which
//! action follows which event, which prices a block carries, which proposal
//! streams are well formed, and what the controller remembers.

pub mod arith;
pub mod types;
pub mod gas_price;
pub mod stream;
pub mod store;
pub mod proposer;
pub mod validator;
pub mod config;
pub mod controller;
pub mod clock;
pub mod component;
pub mod decision;
