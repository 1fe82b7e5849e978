//! The messages exchanged with clients, as closed tagged types.

pub mod client_protocol;
pub mod server_protocol;
