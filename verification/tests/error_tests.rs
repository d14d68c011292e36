use std::io;
use std::path::{Path, PathBuf};

use fs_change_detector::error::{map_notify_error_to_file_watcher_error, watch_error, WatchFailure};
use fs_change_detector::FileWatcherError;

#[test]
fn missing_path_is_reported_with_the_path() {
    let path = Path::new("/no/such/dir");
    match watch_error(WatchFailure::PathNotFound, path) {
        FileWatcherError::PathNotFound(reported) => assert_eq!(reported, PathBuf::from("/no/such/dir")),
        other => panic!("expected PathNotFound, got {:?}", other),
    }
}

#[test]
fn exhausted_watches_are_reported() {
    let error = watch_error(WatchFailure::MaxFilesWatch, Path::new("a"));
    assert!(matches!(error, FileWatcherError::TooManyWatches));
}

#[test]
fn generic_failure_keeps_its_message() {
    let failure = WatchFailure::Generic(String::from("backend went away"));
    match watch_error(failure, Path::new("a")) {
        FileWatcherError::WatcherGenericError(message) => assert_eq!(message, "backend went away"),
        other => panic!("expected WatcherGenericError, got {:?}", other),
    }
}

#[test]
fn rejected_configuration_is_handed_back() {
    let config = notify::Config::default().with_compare_contents(true);
    match watch_error(WatchFailure::InvalidConfig(config), Path::new("a")) {
        FileWatcherError::InvalidWatcherConfig(reported) => assert_eq!(reported, config),
        other => panic!("expected InvalidWatcherConfig, got {:?}", other),
    }
}

#[test]
fn unknown_watch_is_reported_with_the_path() {
    let path = Path::new("relative/dir");
    match watch_error(WatchFailure::WatchNotFound, path) {
        FileWatcherError::WatchNotFound(reported) => assert_eq!(reported, PathBuf::from("relative/dir")),
        other => panic!("expected WatchNotFound, got {:?}", other),
    }
}

#[test]
fn io_failure_is_reported_as_io_error_with_its_text() {
    let cause = io::Error::new(io::ErrorKind::PermissionDenied, "permission denied");
    match watch_error(WatchFailure::Io(cause), Path::new("a")) {
        FileWatcherError::IoError(text) => assert_eq!(text, "permission denied"),
        other => panic!("expected IoError, got {:?}", other),
    }
}

#[test]
fn io_failure_of_the_operating_system_is_reported_as_io_error() {
    // EACCES
    let cause = io::Error::from_raw_os_error(13);
    let expected = cause.to_string();
    match watch_error(WatchFailure::Io(cause), Path::new("a")) {
        FileWatcherError::IoError(text) => assert_eq!(text, expected),
        other => panic!("expected IoError, got {:?}", other),
    }
}

#[test]
fn io_failure_of_the_not_found_kind_is_a_missing_path() {
    let cause = io::Error::new(io::ErrorKind::NotFound, "gone");
    match watch_error(WatchFailure::Io(cause), Path::new("some/where")) {
        FileWatcherError::PathNotFound(reported) => assert_eq!(reported, PathBuf::from("some/where")),
        other => panic!("expected PathNotFound, got {:?}", other),
    }
}

#[test]
fn missing_entry_of_the_operating_system_is_a_missing_path() {
    // ENOENT
    let cause = io::Error::from_raw_os_error(2);
    assert_eq!(cause.kind(), io::ErrorKind::NotFound);
    match watch_error(WatchFailure::Io(cause), Path::new("/x/y")) {
        FileWatcherError::PathNotFound(reported) => assert_eq!(reported, PathBuf::from("/x/y")),
        other => panic!("expected PathNotFound, got {:?}", other),
    }
}

#[test]
fn io_failures_of_other_kinds_stay_io_errors() {
    let kinds = [
        io::ErrorKind::PermissionDenied,
        io::ErrorKind::AlreadyExists,
        io::ErrorKind::InvalidInput,
        io::ErrorKind::Interrupted,
        io::ErrorKind::Other,
    ];
    for kind in kinds {
        let error = watch_error(WatchFailure::Io(io::Error::new(kind, "x")), Path::new("a"));
        assert!(matches!(error, FileWatcherError::IoError(_)), "{:?}", kind);
    }
}

#[test]
fn path_is_copied_byte_for_byte() {
    let path = Path::new("dir with spaces/ünïcödé/..//x.txt");
    match watch_error(WatchFailure::PathNotFound, path) {
        FileWatcherError::PathNotFound(reported) => {
            assert_eq!(reported.as_os_str().as_encoded_bytes(), path.as_os_str().as_encoded_bytes())
        }
        other => panic!("expected PathNotFound, got {:?}", other),
    }
}

#[test]
fn empty_path_is_carried_as_it_is() {
    match watch_error(WatchFailure::WatchNotFound, Path::new("")) {
        FileWatcherError::WatchNotFound(reported) => assert_eq!(reported, PathBuf::new()),
        other => panic!("expected WatchNotFound, got {:?}", other),
    }
}

#[test]
fn source_path_not_found_maps_to_path_not_found() {
    let path = Path::new("/gone");
    match map_notify_error_to_file_watcher_error(notify::Error::path_not_found(), path) {
        FileWatcherError::PathNotFound(reported) => assert_eq!(reported, PathBuf::from("/gone")),
        other => panic!("expected PathNotFound, got {:?}", other),
    }
}

#[test]
fn source_path_not_found_names_the_watched_path_not_the_sources() {
    let refusal = notify::Error::path_not_found().add_path(PathBuf::from("/somewhere/else"));
    match map_notify_error_to_file_watcher_error(refusal, Path::new("/watched")) {
        FileWatcherError::PathNotFound(reported) => assert_eq!(reported, PathBuf::from("/watched")),
        other => panic!("expected PathNotFound, got {:?}", other),
    }
}

#[test]
fn source_watch_limit_maps_to_too_many_watches() {
    let refusal = notify::Error::new(notify::ErrorKind::MaxFilesWatch);
    let error = map_notify_error_to_file_watcher_error(refusal, Path::new("a"));
    assert!(matches!(error, FileWatcherError::TooManyWatches));
}

#[test]
fn source_generic_error_maps_to_generic_with_message() {
    let refusal = notify::Error::generic("internal channel disconnect");
    match map_notify_error_to_file_watcher_error(refusal, Path::new("a")) {
        FileWatcherError::WatcherGenericError(message) => assert_eq!(message, "internal channel disconnect"),
        other => panic!("expected WatcherGenericError, got {:?}", other),
    }
}

#[test]
fn source_invalid_config_maps_to_invalid_config() {
    let config = notify::Config::default().with_follow_symlinks(false);
    let refusal = notify::Error::invalid_config(&config);
    match map_notify_error_to_file_watcher_error(refusal, Path::new("a")) {
        FileWatcherError::InvalidWatcherConfig(reported) => assert_eq!(reported, config),
        other => panic!("expected InvalidWatcherConfig, got {:?}", other),
    }
}

#[test]
fn source_watch_not_found_maps_to_watch_not_found() {
    let refusal = notify::Error::watch_not_found();
    match map_notify_error_to_file_watcher_error(refusal, Path::new("some/dir")) {
        FileWatcherError::WatchNotFound(reported) => assert_eq!(reported, PathBuf::from("some/dir")),
        other => panic!("expected WatchNotFound, got {:?}", other),
    }
}

#[test]
fn source_io_error_maps_to_io_error_with_its_text() {
    let cause = io::Error::new(io::ErrorKind::PermissionDenied, "no entry for you");
    let expected = cause.to_string();
    let refusal = notify::Error::io(cause);
    match map_notify_error_to_file_watcher_error(refusal, Path::new("a")) {
        FileWatcherError::IoError(text) => {
            assert_eq!(text, expected);
            assert_eq!(text, "no entry for you");
        }
        other => panic!("expected IoError, got {:?}", other),
    }
}

#[test]
fn source_io_error_of_the_not_found_kind_maps_to_path_not_found() {
    let refusal = notify::Error::io(io::Error::new(io::ErrorKind::NotFound, "no such directory"));
    match map_notify_error_to_file_watcher_error(refusal, Path::new("watched/dir")) {
        FileWatcherError::PathNotFound(reported) => assert_eq!(reported, PathBuf::from("watched/dir")),
        other => panic!("expected PathNotFound, got {:?}", other),
    }
}
