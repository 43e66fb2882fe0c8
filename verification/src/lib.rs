//! Client-side gateway core for a market-data venue: the session lifecycle
//! state machine, the translation of venue response descriptors into typed
//! results, ownership of the single asynchronous callback handle, and the
//! adapter for the venue's legacy text encoding.

pub mod api;
pub mod codec;
pub mod registry;
pub mod session;
pub mod structs;
