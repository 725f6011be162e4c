//! Platform helpers for a desktop shell: the host's platform identifier, the
//! version line of an external media tool, and the execute permission of a file.
//!
//! Every function here works on plain values. The caller runs the subprocess and
//! touches the file system, and hands the outcome in.

pub mod error;
pub mod permissions;
pub mod platform;
pub mod version;

pub use error::HelperError;
pub use permissions::{
    check_file_executable, make_executable, FileEvent, FileMetadata, FileStep, PlatformFamily,
};
pub use platform::get_platform;
pub use version::{get_ffmpeg_version, CommandOutcome};
