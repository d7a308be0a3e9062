//! Streaming command bridge: the verified core of a desktop shell that
//! launches an external analysis worker (a subprocess writing lines, or a
//! remote service streaming typed frames) and forwards whatever the worker
//! produces, in arrival order, to a UI event sink.
//!
//! The library holds the logic: incremental line splitting, canonical frame
//! rendering, order-preserving forwarding, the per-operation state machine,
//! history windowing, and upload decoding. The surrounding process (spawning,
//! network calls, the event sink itself) lives outside and talks to this
//! library in plain values.

pub mod bridge;
pub mod forward;
pub mod frame;
pub mod history;
pub mod lines;
pub mod operation;
pub mod upload;
