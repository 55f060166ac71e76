//! The interaction core of a guild bot: decoding of component identifiers,
//! routing of interactions to commands, storage keys of persisted records,
//! and the state machines of applications, polls and role selectors.
//!
//! Nothing here performs I/O. Every operation takes the records and events
//! it needs as plain values and returns the next state together with what is
//! to be done on the platform or in the store.

pub mod command;
pub mod utility;
