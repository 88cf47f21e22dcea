//! Live network-traffic monitoring: filter matching, packet dissection and the
//! envelope protocol that carries events out and control commands in.

pub mod config;
pub mod event_loop;
pub mod filters;
pub mod gmcp;
pub mod packet_handler;
pub mod wire;
