//! Normalisation of automated-market-maker pool state, as returned by a
//! state-reading JSON-RPC method, into canonical snapshot documents.

pub mod json;
pub mod slot0;
pub mod ticks;
pub mod snapshot;
