//! Decoding of Jaeger `emitBatch` notifications, received as Thrift messages,
//! into typed batches of spans.

pub mod collect;
pub mod error;
pub mod field;
pub mod hex;
pub mod ident;
pub mod laws;
pub mod listener;
pub mod model;
pub mod schema;
pub mod tags;
pub mod text;
pub mod thrift;
pub mod time;
pub mod wire;
