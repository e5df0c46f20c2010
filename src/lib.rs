//! Transparent redirection of frames read from a virtual interface through
//! an upstream proxy: frame dissection, the redirect decision, the relay
//! state machine and the route-table lifecycle.

pub mod packet;
pub mod redirect;
pub mod relay;
pub mod route;
pub mod pool;
