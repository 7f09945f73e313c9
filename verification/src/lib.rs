//! The indexing and search-coordination engine of a local code-search agent.
//!
//! The agent keeps an index of a code repository at a remote search backend and answers
//! search requests with what that index holds. This crate is the part that decides:
//! which files of a project are read ([`collect`], [`exclude`]), what text their bytes
//! are ([`encoding`]), how a file is cut into blobs ([`chunking`]), how a blob is named
//! by its content ([`digest`]), what one indexing run uploads and what the registry
//! holds afterwards ([`registry`], [`index`]), how often a request is tried
//! ([`retry`]), what a project's status record says ([`status`]), and what a search
//! does while the index is absent, in the making or complete ([`search`]).
//!
//! Nothing here reads a file, sends a request or waits. A run and a walk are machines
//! that are told what happened and say what is to be done next; their caller does it.
//! Each function states in its contract what it returns, over the texts, lists and
//! maps that its arguments stand for, and is verified against that contract.

pub mod arith;
pub mod blob;
pub mod chunking;
pub mod collect;
pub mod config;
pub mod digest;
pub mod encoding;
pub mod exclude;
pub mod guard;
pub mod index;
pub mod memory;
pub mod path;
pub mod registry;
pub mod retry;
pub mod search;
pub mod status;
pub mod text;
pub mod text_map;
pub mod tool;

pub use memory::{is_sou_enabled, MemoryTool};
pub use search::AcemcpTool;
pub use status::{ensure_initial_index_background, get_initial_index_state, InitialIndexState};
