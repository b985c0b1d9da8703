//! A static HTTP responder: one route per server, answered with a fixed
//! `Hello, World!` payload, and the laws that make it stateless.

pub mod body;
pub mod http;
pub mod laws;
pub mod message;
pub mod responder;
pub mod server;
