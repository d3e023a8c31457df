//! The command-recording core of a WebGPU-style binding layer over wgpu.
//!
//! A command encoder lends its recording to one render or compute pass at a
//! time. A pass handle records commands while open and hands them to its
//! encoder exactly once, whether it is ended (any number of times) or
//! released. Recording on an ended pass is a reported error. Resources are
//! named by identifiers; descriptors are resolved from their string tokens
//! into typed settings, and buffer mapping is tracked as a state machine.

pub mod attachments;
pub mod buffer;
pub mod bundle;
pub mod commands;
pub mod descriptors;
pub mod error;
pub mod features;
pub mod inline_pass;
pub mod laws;
pub mod native;
pub mod pipeline;
pub mod session;
pub mod text;
pub mod tokens;
