//! Hank: keeps track of the configuration files of command line tools.
//!
//! The library holds the catalogue of known configuration files, the rules that
//! resolve them to paths, the checks applied to the answers of the setup
//! prompt, the order in which found files are offered, and the decisions of
//! the setup dialogue. Terminal and file I/O stay with the caller.

pub mod text;
pub mod configs;
pub mod catalog_paths;
pub mod utils;
pub mod init;
pub mod selection;
pub mod flow;
pub mod sync;
