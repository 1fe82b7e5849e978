//! Transit data: the static records kept in the store, and the vehicles of
//! the realtime feed.

pub mod trafiklab;
pub mod transit_realtime;
pub mod transit_static;
