//! Client-side worker for the external task pattern of a process engine.
//!
//! The library holds the settings of a worker, the shape of the requests it
//! sends to the engine, and the per-topic polling state machine that decides,
//! event by event, what the worker does next. Running the network calls, the
//! handlers and the sleeps is left to the embedding program.
use vstd::prelude::*;

pub mod config;
pub mod request;
pub mod trace;
pub mod worker;

verus! {

} // verus!
