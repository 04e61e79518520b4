//! OAuth2 token acquisition for a JSON HTTP API: the client-credentials grant,
//! the device-code grant as an explicit state machine, and the downstream
//! user query. The library builds requests and interprets responses; sending
//! them and waiting between polls is left to the caller.

pub mod device;
pub mod flow;
pub mod graph;
pub mod json;
pub mod laws;
pub mod model;
pub mod replay;
pub mod report;
pub mod token;
