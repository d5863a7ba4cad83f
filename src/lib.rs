//! Decision logic of a BME680 environmental logger that forwards readings to a
//! time-series database: warm-up suppression, measurement construction and the
//! sampling cycle, all free of I/O.
pub mod config;
pub mod cycle;
pub mod point;
pub mod profile;
pub mod reading;
pub mod warmup;
