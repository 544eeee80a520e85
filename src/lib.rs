//! Assembles an installable plugin package: a zip archive holding a built
//! plugin binary and two files taken from a loader release archive, each
//! placed at the install path for a given title.

pub mod archive;
pub mod error;
pub mod exefs;
pub mod lemmas;
pub mod package;
pub mod paths;

pub use error::Error;
pub use paths::{get_npdm_path, get_plugin_nro_path, get_subsdk_path};
pub use exefs::{get_exefs, Exefs};
pub use package::{package, package_entries, resolve_title_id, write_archive, PackageEntry};
