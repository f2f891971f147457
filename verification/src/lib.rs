//! Model registry and generation coordinator for a translation server.
//!
//! The library maps a requested model identifier to a canonical one
//! (aliases, default sentinel), plans the lazy loading of inference
//! engines into a process-wide cache, resolves layered generation
//! parameters (request override, then per-model default, then global
//! default), and prepares the batch inputs the native engine expects.
//! The native engine itself, the HTTP transport and the configuration
//! files are external collaborators: the embedding program performs
//! those calls and feeds their outcomes back into this library.

mod text;

pub mod api;
pub mod config;
pub mod model;

pub use text::str_eq;
