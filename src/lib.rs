//! A process-wide tokenizer registry over tiktoken's BPE encoders, reduced to
//! a verified state machine: pick an encoding scheme by name, count tokens in
//! text, and reset.

pub mod scheme;
pub mod encoder;
pub mod registry;
pub mod laws;

pub use registry::{tiktoken_cleanup, tiktoken_count, tiktoken_init, Registry};
