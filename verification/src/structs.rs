//! Domain value types crossing the session boundary: flat records, pure
//! data with no behavior beyond construction and field access, constructed
//! fresh per request and immutable afterwards.

use vstd::prelude::*;

verus! {

/// The venues an instrument can trade on.
#[derive(Clone, Copy, Debug, PartialEq, Eq, Structural)]
pub enum Exchange {
    SHFE,
    DCE,
    CZCE,
    CFFEX,
    INE,
    SSE,
    SZSE,
}

/// A request to subscribe to one instrument's feed.
pub struct SubscribeRequest {
    pub symbol: String,
    pub exchange: Exchange,
}

/// A request to cancel a working order.
pub struct CancelRequest {
    pub orderid: String,
    pub symbol: String,
    pub exchange: Exchange,
}

/// Connection parameters, opaque to this core.
pub struct ConnectInfo {}

/// The parameter bundle handed to a session factory.
pub struct Params {
    pub connect_info: ConnectInfo,
}

} // verus!
