//! An intercepting reverse proxy core for LLM inference backends.
//!
//! The library forwards streaming response bytes to the client verbatim while
//! feeding the identical bytes to a protocol-specific parser that extracts
//! token-usage counts.  The stream tee, the incremental wire-format parsers
//! (NDJSON for Ollama-style backends, SSE for OpenAI-compatible ones), the
//! backend detector and the metrics builder live here, verified; the HTTP
//! plumbing around them does not.

pub mod bytescan;
pub mod decode;
pub mod metrics;
pub mod middleware;
pub mod parsers;
pub mod tee;
pub mod types;
