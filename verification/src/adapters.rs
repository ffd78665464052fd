//! Records of remote services, as the library receives them.

pub mod tagpacker_adapter;
