//! Fleet update orchestration: per-host update pipelines over SSH, a streaming
//! output parser, progress classification, and a progress table read by a
//! renderer. The I/O itself (SSH, terminal, JSON fetch) lives outside this
//! library; everything here is pure logic with verified contracts.

pub mod aggregator;
pub mod auth;
pub mod classify;
pub mod decode;
pub mod fleet;
pub mod fmt;
pub mod host;
pub mod lines;
pub mod phase;
pub mod pipeline;
pub mod selector;
pub mod stream;
pub mod text;
pub mod tui_state;
