//! Device-side runtime for an NMOS IS-12 / MS-05-02 control-protocol endpoint:
//! a typed, introspectable object tree addressed over a JSON message protocol,
//! with property-change notifications fanned out to subscribed sessions.

pub mod json;
pub mod types;
pub mod descriptors;
pub mod object;
pub mod worker;
pub mod manager;
pub mod device_manager;
pub mod registry;
pub mod class_manager;
pub mod block;
pub mod session;
pub mod nmos;
pub mod laws;

pub use json::Json;
