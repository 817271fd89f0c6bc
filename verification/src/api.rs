//! The records, identifiers and errors of the tracking protocol, and the
//! interface of a client.

pub mod client;
pub mod error;
pub mod experiment;
pub mod id;
pub mod limits;
pub mod run;
pub mod search;
