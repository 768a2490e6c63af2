//! A terminal system summary: host metrics rendered beside a block of ASCII
//! art, one metric per row, with the metric column aligned.
//!
//! Everything here is a pure function of its arguments. Gathering the host
//! facts, reading the configuration file and printing the rows are left to the
//! caller.

pub mod config;
pub mod decimal;
pub mod get_info;
pub mod layout;
pub mod metrics;
pub mod summary;
pub mod text;
pub mod units;

pub use config::{read_config, Config};
pub use get_info::{cpu_info, get_mem, get_swap, os_info};
pub use layout::layout;
pub use summary::summary;
pub use units::unit_converter;
