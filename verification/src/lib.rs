//! Weather lookup library: a validated temperature value type, the location
//! and options model, request building for the remote weather service, and
//! deterministic rendering of a weather report.
//!
//! Temperatures are carried as integers counting hundredths of a degree
//! (the service reports values with two decimal places of interest), so all
//! conversions are exact integer arithmetic.

pub mod api;
pub mod cli_opts;
pub mod config;
pub mod error;
pub mod numfmt;
pub mod temperature;
pub mod weather_data;

pub use error::Error;
