//! What belongs to the update of a trip.

#[allow(non_snake_case)]
pub mod mod_StopTimeUpdate;
