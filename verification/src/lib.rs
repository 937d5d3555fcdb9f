//! Core logic of a multi-host clipboard synchronizer that converges over a
//! shared, passively-replicated folder.
//!
//! Each host encodes outgoing clipboard state as artifact files that peers
//! eventually see, decodes incoming artifacts into local clipboard state,
//! suppresses feedback loops, tolerates partially-replicated multi-file
//! transfers, expires stale artifacts, and checks whether any peer is
//! listening before writing.  All decisions are made here over plain values;
//! the surrounding process performs the actual clipboard, file-system and
//! process I/O and feeds the observations back in.

pub mod consts;
pub mod text;
pub mod types;
pub mod codec;
pub mod config;
pub mod dedup;
pub mod presence;
pub mod retention;
pub mod utils;
pub mod writer;
pub mod reader;
pub mod command;
pub mod update;
pub mod orchestrator;
