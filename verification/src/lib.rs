//! Core of a background input daemon that watches system-wide keyboard and
//! pointer activity and forwards each event, translated into a compact
//! 16-bit code, to scripted callback handlers.
//!
//! - [`ukey`] holds the event-code taxonomy: the pure, total, injective
//!   translation of raw key and button identifiers into a flat code space
//!   with category prefixes.
//! - [`dispatch`] holds the handler registry and the single-consumer
//!   dispatch loop: events are delivered in arrival order, a missing
//!   handler is a no-op, and a failing handler stops the loop with a
//!   category-specific exit status.
//! - [`file`] resolves the scripting layer's directories from what the
//!   embedding reports about the filesystem.
//!
//! The embedding supplies the raw events (an OS capture hook), the
//! handlers (a scripting environment), and the filesystem probes; the
//! decisions taken on them all live here.
pub mod dispatch;
pub mod file;
pub mod ukey;
