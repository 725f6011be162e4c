//! Whether a file can be executed, and the steps that make it so.
//!
//! On POSIX-like systems a file is executable by its permission bits; on
//! Windows-like systems by its name. The caller reads and writes the file
//! system; the decisions are taken here.

use vstd::prelude::*;
use vstd::string::*;
use crate::error::{ErrorModel, HelperError};

verus! {

/// The two kinds of system that differ in what makes a file executable.
#[derive(Debug, Clone, Copy, PartialEq, Eq, Structural)]
pub enum PlatformFamily {
    Posix,
    Windows,
}

/// What the helpers read of a file's metadata.
#[derive(Debug, Clone, Copy, PartialEq, Eq, Structural)]
pub struct FileMetadata {
    /// The permission bits (POSIX-like systems).
    pub mode: u32,
    /// Whether the path names a regular file.
    pub is_file: bool,
}

/// The execute bits of owner, group and others.
pub const EXECUTE_BITS: u32 = 0o111;

/// The bits that `make_executable` grants: `rwxr-xr-x`.
pub const GRANTED_BITS: u32 = 0o755;

/// A mode has at least one execute bit set.
pub open spec fn has_execute_bit(mode: u32) -> bool {
    mode & EXECUTE_BITS != 0
}

/// A mode with the granted bits added to it.
pub open spec fn with_granted_bits(mode: u32) -> u32 {
    mode | GRANTED_BITS
}

/// A path ends in `.exe`, in exactly this case.
pub open spec fn has_exe_suffix(path: Seq<char>) -> bool {
    &&& path.len() >= 4
    &&& path[path.len() - 4] == '.'
    &&& path[path.len() - 3] == 'e'
    &&& path[path.len() - 2] == 'x'
    &&& path[path.len() - 1] == 'e'
}

/// Whether the file at `path` is executable, given what reading its metadata
/// gave. Metadata that could not be read counts as not executable.
pub open spec fn is_executable(
    family: PlatformFamily,
    path: Seq<char>,
    metadata: Option<FileMetadata>,
) -> bool {
    match metadata {
        None => false,
        Some(found) => match family {
            PlatformFamily::Posix => has_execute_bit(found.mode),
            PlatformFamily::Windows => has_exe_suffix(path) && found.is_file,
        },
    }
}

/// Tells whether `path` ends in `.exe`.
fn ends_with_exe(path: &str) -> (found: bool)
    ensures
        found == has_exe_suffix(path@),
{
    let n = path.unicode_len();
    n >= 4 && path.get_char(n - 4) == '.' && path.get_char(n - 3) == 'e' && path.get_char(n - 2)
        == 'x' && path.get_char(n - 1) == 'e'
}

/// Tells whether the file at `path` is executable, from the result of reading
/// its metadata (`None` where that failed, for whatever reason).
pub fn check_file_executable(
    family: PlatformFamily,
    path: &str,
    metadata: Option<FileMetadata>,
) -> (executable: bool)
    ensures
        executable == is_executable(family, path@, metadata),
{
    match metadata {
        None => false,
        Some(found) => match family {
            PlatformFamily::Posix => found.mode & EXECUTE_BITS != 0,
            PlatformFamily::Windows => ends_with_exe(path) && found.is_file,
        },
    }
}

/// What the caller reports back while a file is being made executable.
#[derive(Debug, PartialEq, Eq)]
pub enum FileEvent {
    /// Nothing has been done yet.
    Start,
    /// The metadata was read, or reading it failed with this description.
    MetadataRead(Result<FileMetadata, String>),
    /// The permissions were written, or writing them failed with this
    /// description.
    PermissionsWritten(Result<(), String>),
}

/// What the caller does next while a file is being made executable.
#[derive(Debug, PartialEq, Eq)]
pub enum FileStep {
    /// Read the file's metadata and report it.
    ReadMetadata,
    /// Set the file's permission bits to this mode and report the result.
    WritePermissions(u32),
    /// Nothing is left to do: this is the result.
    Done(Result<(), HelperError>),
}

/// A `FileEvent` as a mathematical value.
pub enum EventModel {
    Start,
    MetadataRead(Result<FileMetadata, Seq<char>>),
    PermissionsWritten(Result<(), Seq<char>>),
}

/// A `FileStep` as a mathematical value.
pub enum StepModel {
    ReadMetadata,
    WritePermissions(u32),
    Done(Result<(), ErrorModel>),
}

impl View for FileEvent {
    type V = EventModel;

    open spec fn view(&self) -> EventModel {
        match self {
            FileEvent::Start => EventModel::Start,
            FileEvent::MetadataRead(Ok(found)) => EventModel::MetadataRead(Ok(*found)),
            FileEvent::MetadataRead(Err(description)) => EventModel::MetadataRead(
                Err(description@),
            ),
            FileEvent::PermissionsWritten(Ok(())) => EventModel::PermissionsWritten(Ok(())),
            FileEvent::PermissionsWritten(Err(description)) => EventModel::PermissionsWritten(
                Err(description@),
            ),
        }
    }
}

impl View for FileStep {
    type V = StepModel;

    open spec fn view(&self) -> StepModel {
        match self {
            FileStep::ReadMetadata => StepModel::ReadMetadata,
            FileStep::WritePermissions(mode) => StepModel::WritePermissions(*mode),
            FileStep::Done(Ok(())) => StepModel::Done(Ok(())),
            FileStep::Done(Err(error)) => StepModel::Done(Err(error@)),
        }
    }
}

/// The step that follows an event.
///
/// On a Windows-like system there is nothing to do, and the result is success
/// at once. On a POSIX-like system the metadata is read first; the mode found,
/// with the granted bits added, is then written; a failure of either ends the
/// work with the matching error.
pub open spec fn next_step(family: PlatformFamily, event: EventModel) -> StepModel {
    match family {
        PlatformFamily::Windows => StepModel::Done(Ok(())),
        PlatformFamily::Posix => match event {
            EventModel::Start => StepModel::ReadMetadata,
            EventModel::MetadataRead(Ok(found)) => StepModel::WritePermissions(
                with_granted_bits(found.mode),
            ),
            EventModel::MetadataRead(Err(description)) => StepModel::Done(
                Err(ErrorModel::MetadataFailure(description)),
            ),
            EventModel::PermissionsWritten(Ok(())) => StepModel::Done(Ok(())),
            EventModel::PermissionsWritten(Err(description)) => StepModel::Done(
                Err(ErrorModel::PermissionWriteFailure(description)),
            ),
        },
    }
}

/// Decides the next step in making a file executable.
///
/// The caller begins with `FileEvent::Start`, carries out each step it is
/// given and reports what came of it, until the step is `FileStep::Done`.
pub fn make_executable(family: PlatformFamily, event: FileEvent) -> (step: FileStep)
    ensures
        step@ == next_step(family, event@),
{
    match family {
        PlatformFamily::Windows => FileStep::Done(Ok(())),
        PlatformFamily::Posix => match event {
            FileEvent::Start => FileStep::ReadMetadata,
            FileEvent::MetadataRead(Ok(found)) => FileStep::WritePermissions(
                found.mode | GRANTED_BITS,
            ),
            FileEvent::MetadataRead(Err(description)) => FileStep::Done(
                Err(HelperError::MetadataFailure(description)),
            ),
            FileEvent::PermissionsWritten(Ok(())) => FileStep::Done(Ok(())),
            FileEvent::PermissionsWritten(Err(description)) => FileStep::Done(
                Err(HelperError::PermissionWriteFailure(description)),
            ),
        },
    }
}

/// The owner's execute bit alone makes a file executable on a POSIX-like
/// system; with every execute bit cleared it is not executable; and a file
/// whose metadata cannot be read is not executable on any system.
pub proof fn lemma_execute_bits_decide(
    family: PlatformFamily,
    path: Seq<char>,
    metadata: FileMetadata,
)
    ensures
        metadata.mode & 0o100 != 0 ==> is_executable(PlatformFamily::Posix, path, Some(metadata)),
        !is_executable(
            PlatformFamily::Posix,
            path,
            Some(FileMetadata { mode: metadata.mode & !EXECUTE_BITS, is_file: metadata.is_file }),
        ),
        !is_executable(family, path, None),
{
    let mode = metadata.mode;
    assert(mode & 0o100 != 0 ==> mode & 0o111 != 0) by (bit_vector);
    assert((mode & !0o111u32) & 0o111 == 0) by (bit_vector);
}

/// Making a file executable a second time asks for the mode that the first
/// time wrote, and loses no bit that the file had. After either time a check
/// of the file on a POSIX-like system says that it is executable.
pub proof fn lemma_make_executable_idempotent(path: Seq<char>, metadata: FileMetadata)
    ensures
        with_granted_bits(with_granted_bits(metadata.mode)) == with_granted_bits(metadata.mode),
        with_granted_bits(metadata.mode) & metadata.mode == metadata.mode,
        next_step(
            PlatformFamily::Posix,
            EventModel::MetadataRead(
                Ok(
                    FileMetadata {
                        mode: with_granted_bits(metadata.mode),
                        is_file: metadata.is_file,
                    },
                ),
            ),
        ) == next_step(PlatformFamily::Posix, EventModel::MetadataRead(Ok(metadata))),
        is_executable(
            PlatformFamily::Posix,
            path,
            Some(
                FileMetadata { mode: with_granted_bits(metadata.mode), is_file: metadata.is_file },
            ),
        ),
{
    let mode = metadata.mode;
    assert((mode | 0o755) | 0o755 == mode | 0o755) by (bit_vector);
    assert((mode | 0o755) & mode == mode) by (bit_vector);
    assert((mode | 0o755) & 0o111 != 0) by (bit_vector);
}

/// On a Windows-like system every event ends the work with success, and no
/// step reads or writes anything.
pub proof fn lemma_windows_is_noop(event: EventModel)
    ensures
        next_step(PlatformFamily::Windows, event) == StepModel::Done(Ok(())),
{
}

} // verus!
