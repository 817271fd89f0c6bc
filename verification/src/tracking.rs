//! Helpers that log a whole run with few requests.

pub mod run;

pub use run::TrackingRun;
