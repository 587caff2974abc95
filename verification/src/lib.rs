//! Event capture for kernel tracepoints: the record layouts that probes and
//! consumer share, the reserve / fill / submit-or-discard discipline of the
//! probes, and the decoding and polling rules of the consumer.

pub mod attach;
pub mod codec;
pub mod connect_trace;
pub mod consumer;
pub mod context;
pub mod emit;
pub mod producer;
pub mod report;
pub mod ring;
pub mod schema;
pub mod settings;
pub mod telemetry;
pub mod text;
pub mod wire;
