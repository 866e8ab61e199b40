//! A relay between HTTP callers and a remote blob store.
//!
//! The library decides, for each inbound request, which single outbound call
//! to the blob store is made (or that none is), and how the store's answer is
//! turned into the response the caller sees. Performing the calls and serving
//! HTTP is left to the program around it.
pub mod config;
pub mod cors;
pub mod laws;
pub mod payload;
pub mod relay;
