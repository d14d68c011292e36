//! Why a watch could not be set up.

use vstd::prelude::*;
use std::path::{Path, PathBuf};

verus! {

/// `std::path::Path`, opaque but for `path_bytes`.
#[verifier::external_type_specification]
#[verifier::external_body]
pub struct ExPath(Path);

/// `std::path::PathBuf`, opaque but for `path_buf_bytes`.
#[verifier::external_type_specification]
#[verifier::external_body]
pub struct ExPathBuf(PathBuf);

/// `notify::Config`, opaque: it is only carried from a failure into an error.
#[verifier::external_type_specification]
#[verifier::external_body]
pub struct ExConfig(notify::Config);

/// `std::io::Error`, opaque: it is carried from a failure to where it is
/// judged and rendered.
#[verifier::external_type_specification]
#[verifier::external_body]
pub struct ExIoError(std::io::Error);

/// `notify::Error`, opaque: `failure_of` reads it.
#[verifier::external_type_specification]
#[verifier::external_body]
pub struct ExNotifyError(notify::Error);

/// The bytes that a borrowed path consists of, as the platform encodes them.
pub uninterp spec fn path_bytes(path: &Path) -> Seq<u8>;

/// The bytes that an owned path consists of, as the platform encodes them.
pub uninterp spec fn path_buf_bytes(path: PathBuf) -> Seq<u8>;

/// `Path::to_path_buf` copies the path into an owned buffer, byte for byte.
pub assume_specification[ Path::to_path_buf ](path: &Path) -> (owned: PathBuf)
    ensures
        path_buf_bytes(owned) == path_bytes(path),
;

/// What the notification source reported when it refused to start or to
/// register a watch.
#[derive(Debug)]
pub enum WatchFailure {
    /// An uncategorised failure with its message.
    Generic(String),
    /// An I/O failure of the operating system.
    Io(std::io::Error),
    /// The path does not exist.
    PathNotFound,
    /// A watch was to be removed that was never registered.
    WatchNotFound,
    /// The source rejected this configuration.
    InvalidConfig(notify::Config),
    /// The operating system's limit on watches is exhausted.
    MaxFilesWatch,
}

/// What an error of the notification source reports: its kind, with the
/// message, configuration or I/O error that the kind carries.
pub uninterp spec fn reported_failure(error: notify::Error) -> WatchFailure;

/// Tells the variants of `notify::ErrorKind` apart, reading the public field
/// `kind` of a `notify::Error`, and moves what each variant carries. The
/// result depends on the error alone, and is what `reported_failure` names.
#[verifier::external_body]
pub(crate) fn failure_of(error: notify::Error) -> (failure: WatchFailure)
    ensures
        failure == reported_failure(error),
{
    match error.kind {
        notify::ErrorKind::Generic(message) => WatchFailure::Generic(message),
        notify::ErrorKind::Io(cause) => WatchFailure::Io(cause),
        notify::ErrorKind::PathNotFound => WatchFailure::PathNotFound,
        notify::ErrorKind::WatchNotFound => WatchFailure::WatchNotFound,
        notify::ErrorKind::InvalidConfig(config) => WatchFailure::InvalidConfig(config),
        notify::ErrorKind::MaxFilesWatch => WatchFailure::MaxFilesWatch,
    }
}

/// Whether an I/O error is of the kind that says that something was not
/// found.
pub uninterp spec fn io_not_found(cause: &std::io::Error) -> bool;

/// Calls `std::io::Error::kind` and tells `ErrorKind::NotFound` from every
/// other kind. The kind depends on the error alone, and whether it is
/// `NotFound` is what `io_not_found` names.
#[verifier::external_body]
pub(crate) fn is_not_found(cause: &std::io::Error) -> (missing: bool)
    ensures
        missing == io_not_found(cause),
{
    matches!(cause.kind(), std::io::ErrorKind::NotFound)
}

/// Calls `to_string` on a `std::io::Error`. For a failure of the operating
/// system the text is the platform's own, in the language it is set to, so
/// nothing is claimed of it.
#[verifier::external_body]
pub(crate) fn rendered(cause: &std::io::Error) -> (text: String) {
    cause.to_string()
}

/// Why a watch could not be established.
#[derive(Debug)]
pub enum FileWatcherError {
    /// The operating system reported an I/O failure.
    IoError(String),
    /// The path to watch does not exist.
    PathNotFound(PathBuf),
    /// The operating system's limit on watches is exhausted.
    TooManyWatches,
    /// The notification source rejected its configuration.
    InvalidWatcherConfig(notify::Config),
    /// An uncategorised failure of the notification source.
    WatcherGenericError(String),
    /// The internal signal queue failed. Reserved: nothing produces it.
    InternalChannelError(String),
    /// A watch was to be removed that was never registered for this path.
    WatchNotFound(PathBuf),
}

/// Whether `error` is how `failure`, met while watching `path`, is reported to
/// the caller. A missing path is reported as `PathNotFound` also where the
/// source met it as an I/O failure of the not-found kind. Of any other I/O
/// failure only the kind of the error is fixed: its text is the platform's.
pub open spec fn reports(error: FileWatcherError, failure: WatchFailure, path: &Path) -> bool {
    match failure {
        WatchFailure::PathNotFound => error matches FileWatcherError::PathNotFound(p)
            && path_buf_bytes(p) == path_bytes(path),
        WatchFailure::MaxFilesWatch => error is TooManyWatches,
        WatchFailure::Generic(message) => error matches FileWatcherError::WatcherGenericError(m)
            && m@ == message@,
        WatchFailure::InvalidConfig(config) => error matches FileWatcherError::InvalidWatcherConfig(
            c,
        ) && c == config,
        WatchFailure::WatchNotFound => error matches FileWatcherError::WatchNotFound(p)
            && path_buf_bytes(p) == path_bytes(path),
        WatchFailure::Io(cause) => if io_not_found(&cause) {
            error matches FileWatcherError::PathNotFound(p) && path_buf_bytes(p) == path_bytes(
                path,
            )
        } else {
            error is IoError
        },
    }
}

/// Whether `failure` says that the path is missing: the source reported it
/// so, or met an I/O failure of the not-found kind.
pub open spec fn says_missing(failure: WatchFailure) -> bool {
    failure is PathNotFound || (failure matches WatchFailure::Io(cause) && io_not_found(&cause))
}

/// Each kind of failure is reported under its own kind of error and no other.
/// In particular a missing path is reported as `PathNotFound`, never as a
/// generic or an I/O error, and nothing is ever reported as
/// `InternalChannelError`.
pub proof fn lemma_error_kind_follows_failure(
    error: FileWatcherError,
    failure: WatchFailure,
    path: &Path,
)
    requires
        reports(error, failure, path),
    ensures
        says_missing(failure) <==> error is PathNotFound,
        failure is MaxFilesWatch <==> error is TooManyWatches,
        failure is Generic <==> error is WatcherGenericError,
        failure is InvalidConfig <==> error is InvalidWatcherConfig,
        failure is WatchNotFound <==> error is WatchNotFound,
        (failure is Io && !says_missing(failure)) <==> error is IoError,
        !(error is InternalChannelError),
        error matches FileWatcherError::PathNotFound(p) ==> path_buf_bytes(p) == path_bytes(path),
        error matches FileWatcherError::WatchNotFound(p) ==> path_buf_bytes(p) == path_bytes(path),
{
}

/// Whether `error` can come of a refusal to start or to register a watch on
/// `path`. It is then of one of the five kinds under which such a refusal is
/// reported, and where it names a path, that path is `path`. The two other
/// kinds are reserved: nothing that sets up a watch hands them back.
pub open spec fn refusal_for(error: FileWatcherError, path: &Path) -> bool {
    match error {
        FileWatcherError::PathNotFound(p) => path_buf_bytes(p) == path_bytes(path),
        FileWatcherError::IoError(_) => true,
        FileWatcherError::TooManyWatches => true,
        FileWatcherError::InvalidWatcherConfig(_) => true,
        FileWatcherError::WatcherGenericError(_) => true,
        FileWatcherError::InternalChannelError(_) => false,
        FileWatcherError::WatchNotFound(_) => false,
    }
}

/// Whatever reports a failure other than an unknown watch is a refusal for
/// the watched path.
pub proof fn lemma_reports_of_other_failures_are_refusals(
    error: FileWatcherError,
    failure: WatchFailure,
    path: &Path,
)
    requires
        reports(error, failure, path),
        !(failure is WatchNotFound),
    ensures
        refusal_for(error, path),
{
}

/// The error handed to the caller for a failure of the notification source
/// that was met while watching `path`. Failures that concern a path carry a
/// copy of `path`; messages and configurations are carried over unchanged.
/// An I/O failure of the not-found kind is a missing path; any other is
/// handed on as the text it renders to.
pub fn watch_error(failure: WatchFailure, path: &Path) -> (error: FileWatcherError)
    ensures
        reports(error, failure, path),
{
    match failure {
        WatchFailure::PathNotFound => FileWatcherError::PathNotFound(path.to_path_buf()),
        WatchFailure::MaxFilesWatch => FileWatcherError::TooManyWatches,
        WatchFailure::Generic(message) => FileWatcherError::WatcherGenericError(message),
        WatchFailure::InvalidConfig(config) => FileWatcherError::InvalidWatcherConfig(config),
        WatchFailure::WatchNotFound => FileWatcherError::WatchNotFound(path.to_path_buf()),
        WatchFailure::Io(cause) => if is_not_found(&cause) {
            FileWatcherError::PathNotFound(path.to_path_buf())
        } else {
            FileWatcherError::IoError(rendered(&cause))
        },
    }
}

/// Maps an error of the notification source, met while watching `path`, to
/// the error handed to the caller: `watch_error` of what the source reported.
pub fn map_notify_error_to_file_watcher_error(e: notify::Error, path: &Path) -> (error:
    FileWatcherError)
    ensures
        reports(error, reported_failure(e), path),
{
    watch_error(failure_of(e), path)
}

} // verus!
