//! A toolchain lifecycle manager: checks installed programming-language
//! toolchains, compares dotted-integer version strings, and plans the
//! platform-specific steps of an install, update, or removal.

pub mod commands;
pub mod dispatch;
pub mod error;
pub mod go;
pub mod java;
pub mod metadata;
pub mod nodejs;
pub mod outputs;
pub mod plan;
pub mod platform;
pub mod python;
pub mod rust;
pub mod text;
pub mod version;

pub use platform::OS;
pub use platform::get_os;
pub use version::compare_versions;
