//! Ways to reach a tracking server.

pub mod payload;
pub mod rest;
