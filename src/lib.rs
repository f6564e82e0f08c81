//! Resolution of `config` attribute reads and method calls made from
//! templates while a model node renders.

pub mod value;
pub mod config_map;
pub mod run_config;
pub mod laws;
