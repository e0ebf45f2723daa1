//! A recursive directory enumerator that emits one streamed JSON array
//! describing every regular file under a set of root paths, with ownership,
//! timing, permission and size metadata normalized across platforms.
//!
//! The crate is split into:
//! - [`record`]: the normalized per-file record and its exact-integer
//!   timestamp representation;
//! - [`meta`]: platform metadata extraction and identity resolution;
//! - [`json`]: verified JSON framing of records;
//! - [`emit`]: the streaming emitter that produces the output array
//!   chunk by chunk;
//! - [`walk`]: the traversal engine's state machine.

pub mod emit;
pub mod json;
pub mod meta;
pub mod record;
pub mod walk;
