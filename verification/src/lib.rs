//! Locating, reading and decoding the configuration of a terminal file manager.
//!
//! The library decides and the caller acts. [`read_config_or_default`] starts
//! loading and names the first file to look for; the caller reports whether it
//! exists, or what reading it gave, until loading is done. The outcome is either the
//! settings of the first configuration file that exists, with its location, or, where
//! none exists, the built-in settings.

pub mod color;
pub mod config;
pub mod decode;
pub mod error;
pub mod exec_table;
pub mod laws;
pub mod load;
pub mod path;
pub mod search;
mod text;
pub mod yaml;

pub use color::{Colorname, ConfigColor};
pub use config::{Config, ConfigWithPath};
pub use decode::decode;
pub use error::{Directory, Fault, Field, FxError};
pub use exec_table::ExecTable;
pub use load::{interpret, parse_config, read_config};
pub use path::ConfigPath;
pub use search::{
    begin, candidate_paths, read_config_or_default, search, Loading, Platform, Probing, Reading,
    FELIX,
};
pub use yaml::Yaml;
