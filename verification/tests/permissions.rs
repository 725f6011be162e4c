use platform_helper::permissions::{EXECUTE_BITS, GRANTED_BITS};
use platform_helper::{
    check_file_executable, make_executable, FileEvent, FileMetadata, FileStep, HelperError,
    PlatformFamily,
};

fn file(mode: u32) -> Option<FileMetadata> {
    Some(FileMetadata { mode, is_file: true })
}

/// A file system with one file, whose writes can be made to fail.
struct OneFile {
    mode: Option<u32>,
    read_only: bool,
    reads: u32,
    writes: u32,
}

fn run(family: PlatformFamily, disk: &mut OneFile) -> Result<(), HelperError> {
    let mut step = make_executable(family, FileEvent::Start);
    for _ in 0..8 {
        let event = match step {
            FileStep::ReadMetadata => {
                disk.reads += 1;
                FileEvent::MetadataRead(match disk.mode {
                    Some(mode) => Ok(FileMetadata { mode, is_file: true }),
                    None => Err("No such file or directory (os error 2)".to_string()),
                })
            }
            FileStep::WritePermissions(mode) => {
                disk.writes += 1;
                FileEvent::PermissionsWritten(if disk.read_only {
                    Err("Operation not permitted (os error 1)".to_string())
                } else {
                    disk.mode = Some(mode);
                    Ok(())
                })
            }
            FileStep::Done(result) => return result,
        };
        step = make_executable(family, event);
    }
    panic!("the steps did not end");
}

#[test]
fn masks_are_the_posix_bits() {
    assert_eq!(EXECUTE_BITS, 0o111);
    assert_eq!(GRANTED_BITS, 0o755);
}

#[test]
fn posix_file_with_owner_execute_bit_is_executable() {
    assert!(check_file_executable(PlatformFamily::Posix, "/opt/ffmpeg", file(0o100)));
    assert!(check_file_executable(PlatformFamily::Posix, "/opt/ffmpeg", file(0o100744)));
}

#[test]
fn posix_file_with_group_or_other_execute_bit_is_executable() {
    assert!(check_file_executable(PlatformFamily::Posix, "/opt/ffmpeg", file(0o010)));
    assert!(check_file_executable(PlatformFamily::Posix, "/opt/ffmpeg", file(0o001)));
    assert!(check_file_executable(PlatformFamily::Posix, "/opt/ffmpeg", file(0o755)));
}

#[test]
fn posix_file_without_execute_bits_is_not_executable() {
    assert!(!check_file_executable(PlatformFamily::Posix, "/opt/ffmpeg", file(0o644)));
    assert!(!check_file_executable(PlatformFamily::Posix, "/opt/ffmpeg", file(0)));
    assert!(!check_file_executable(PlatformFamily::Posix, "/opt/ffmpeg", file(0o100744 & !0o111)));
    assert!(!check_file_executable(PlatformFamily::Posix, "/opt/ffmpeg", file(0o7666)));
}

#[test]
fn posix_check_ignores_name_and_file_kind() {
    let directory = Some(FileMetadata { mode: 0o755, is_file: false });
    assert!(check_file_executable(PlatformFamily::Posix, "/opt", directory));
    assert!(!check_file_executable(PlatformFamily::Posix, "tool.exe", file(0o600)));
}

#[test]
fn missing_file_is_not_executable() {
    assert!(!check_file_executable(PlatformFamily::Posix, "/nowhere", None));
    assert!(!check_file_executable(PlatformFamily::Windows, "C:\\nowhere.exe", None));
}

#[test]
fn windows_file_named_exe_is_executable() {
    assert!(check_file_executable(PlatformFamily::Windows, "C:\\tools\\ffmpeg.exe", file(0)));
    assert!(check_file_executable(PlatformFamily::Windows, ".exe", file(0)));
    assert!(check_file_executable(PlatformFamily::Windows, "\u{e9}dition.exe", file(0)));
}

#[test]
fn windows_suffix_is_case_sensitive() {
    assert!(!check_file_executable(PlatformFamily::Windows, "ffmpeg.EXE", file(0)));
    assert!(!check_file_executable(PlatformFamily::Windows, "ffmpeg.Exe", file(0)));
}

#[test]
fn windows_file_with_other_name_is_not_executable() {
    assert!(!check_file_executable(PlatformFamily::Windows, "ffmpeg", file(0o755)));
    assert!(!check_file_executable(PlatformFamily::Windows, "exe", file(0o755)));
    assert!(!check_file_executable(PlatformFamily::Windows, "", file(0o755)));
    assert!(!check_file_executable(PlatformFamily::Windows, "ffmpeg.exe ", file(0o755)));
    assert!(!check_file_executable(PlatformFamily::Windows, "ffmpeg.exe.bak", file(0o755)));
    assert!(!check_file_executable(PlatformFamily::Windows, "\u{e9}xe", file(0o755)));
}

#[test]
fn windows_directory_named_exe_is_not_executable() {
    let directory = Some(FileMetadata { mode: 0, is_file: false });
    assert!(!check_file_executable(PlatformFamily::Windows, "C:\\odd.exe", directory));
}

#[test]
fn posix_steps_read_then_write_then_end() {
    assert_eq!(make_executable(PlatformFamily::Posix, FileEvent::Start), FileStep::ReadMetadata);
    let found = FileEvent::MetadataRead(Ok(FileMetadata { mode: 0o644, is_file: true }));
    assert_eq!(make_executable(PlatformFamily::Posix, found), FileStep::WritePermissions(0o755));
    let written = FileEvent::PermissionsWritten(Ok(()));
    assert_eq!(make_executable(PlatformFamily::Posix, written), FileStep::Done(Ok(())));
}

#[test]
fn posix_write_adds_bits_and_keeps_the_others() {
    let cases = vec![
        (0u32, 0o755u32),
        (0o600, 0o755),
        (0o644, 0o755),
        (0o755, 0o755),
        (0o777, 0o777),
        (0o022, 0o777),
        (0o4600, 0o4755),
        (0o100644, 0o100755),
        (u32::MAX, u32::MAX),
    ];
    for (mode, expected) in cases {
        let found = FileEvent::MetadataRead(Ok(FileMetadata { mode, is_file: true }));
        assert_eq!(make_executable(PlatformFamily::Posix, found), FileStep::WritePermissions(expected));
    }
}

#[test]
fn posix_unreadable_metadata_is_metadata_failure() {
    let event = FileEvent::MetadataRead(Err("Permission denied (os error 13)".to_string()));
    assert_eq!(
        make_executable(PlatformFamily::Posix, event),
        FileStep::Done(Err(HelperError::MetadataFailure("Permission denied (os error 13)".to_string())))
    );
}

#[test]
fn posix_failed_write_is_permission_write_failure() {
    let event = FileEvent::PermissionsWritten(Err("Operation not permitted (os error 1)".to_string()));
    assert_eq!(
        make_executable(PlatformFamily::Posix, event),
        FileStep::Done(Err(HelperError::PermissionWriteFailure(
            "Operation not permitted (os error 1)".to_string()
        )))
    );
}

#[test]
fn windows_is_done_at_once() {
    assert_eq!(make_executable(PlatformFamily::Windows, FileEvent::Start), FileStep::Done(Ok(())));
    let found = FileEvent::MetadataRead(Ok(FileMetadata { mode: 0o644, is_file: true }));
    assert_eq!(make_executable(PlatformFamily::Windows, found), FileStep::Done(Ok(())));
    let failed = FileEvent::PermissionsWritten(Err("denied".to_string()));
    assert_eq!(make_executable(PlatformFamily::Windows, failed), FileStep::Done(Ok(())));
}

#[test]
fn making_executable_twice_leaves_the_file_executable() {
    let mut disk = OneFile { mode: Some(0o640), read_only: false, reads: 0, writes: 0 };
    assert_eq!(run(PlatformFamily::Posix, &mut disk), Ok(()));
    assert_eq!(disk.mode, Some(0o755));
    assert!(check_file_executable(PlatformFamily::Posix, "tool", file(disk.mode.unwrap())));
    assert_eq!(run(PlatformFamily::Posix, &mut disk), Ok(()));
    assert_eq!(disk.mode, Some(0o755));
    assert!(check_file_executable(PlatformFamily::Posix, "tool", file(disk.mode.unwrap())));
    assert_eq!((disk.reads, disk.writes), (2, 2));
}

#[test]
fn failed_write_leaves_the_mode_as_it_was() {
    let mut disk = OneFile { mode: Some(0o640), read_only: true, reads: 0, writes: 0 };
    assert_eq!(
        run(PlatformFamily::Posix, &mut disk),
        Err(HelperError::PermissionWriteFailure("Operation not permitted (os error 1)".to_string()))
    );
    assert_eq!(disk.mode, Some(0o640));
    assert_eq!((disk.reads, disk.writes), (1, 1));
}

#[test]
fn missing_file_ends_before_any_write() {
    let mut disk = OneFile { mode: None, read_only: false, reads: 0, writes: 0 };
    assert_eq!(
        run(PlatformFamily::Posix, &mut disk),
        Err(HelperError::MetadataFailure("No such file or directory (os error 2)".to_string()))
    );
    assert_eq!((disk.reads, disk.writes), (1, 0));
}

#[test]
fn windows_run_touches_nothing() {
    let mut disk = OneFile { mode: Some(0o640), read_only: true, reads: 0, writes: 0 };
    assert_eq!(run(PlatformFamily::Windows, &mut disk), Ok(()));
    assert_eq!(disk.mode, Some(0o640));
    assert_eq!((disk.reads, disk.writes), (0, 0));
}
