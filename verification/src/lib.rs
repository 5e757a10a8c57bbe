//! Spark: the contract layer of a pipeline-oriented networking framework.
//!
//! The crate holds the decision logic of the framework as verified code. Everything that
//! performs input or output, blocks or awaits lives in the host application, which hands plain
//! values in and carries out the actions that come back.
use vstd::prelude::*;

pub mod buffer;
pub mod codec;
pub mod contract_tests;
pub mod error;
pub mod hosting;
pub mod observability;
pub mod otel;
pub mod pipeline;
pub mod router;
pub mod runtime;
pub mod scan;
pub mod seqs;
pub mod service;
pub mod switch;
pub mod task;
pub mod text;
pub mod text_map;
pub mod time;
pub mod transport;
pub mod views;

verus! {

} // verus!
