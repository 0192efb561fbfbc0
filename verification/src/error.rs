//! The failures that an audit, an installation or a removal can end in.

use crate::text::{signed_decimal, signed_decimal_string};
use vstd::prelude::*;
use vstd::string::*;

verus! {

/// Why an identity or a free group id could not be determined.
#[derive(Clone, Copy, Debug, PartialEq, Eq, Structural)]
pub enum ResolutionFailure {
    /// No account stands behind the invoking user.
    UserUnknown,
    /// The utility that lists the group ids could not be started.
    ListingNotRun,
    /// The utility that lists the group ids ended unsuccessfully, with this
    /// exit code (`None` where a signal ended it).
    ListingFailed { status: Option<i32> },
    /// The list of group ids was not UTF-8 text.
    ListingNotText,
    /// Every id from the minimum upwards is taken.
    IdsExhausted,
}

/// A failure of one of the library's operations.
#[derive(Debug, PartialEq, Eq)]
pub enum Error {
    /// The operation needs elevated privilege and the process has none.
    PermissionDenied,
    /// The device at `path` grants the user no read-write access.
    MissingPermission { path: String },
    /// No device node was found at all.
    NoDevicesFound,
    /// None of the known daemon descriptors exists.
    NotFound,
    /// The command run to `action` ended with a status other than zero
    /// (`None` where a signal ended it).
    ExternalCommandFailed { action: String, status: Option<i32> },
    /// A filesystem operation, described by `context`, failed on `path`.
    IoError { context: String, path: String },
    /// An identity or a group id could not be resolved.
    ResolutionError(ResolutionFailure),
}

/// An [`Error`] with its texts as sequences of characters.
pub enum ErrorView {
    PermissionDenied,
    MissingPermission { path: Seq<char> },
    NoDevicesFound,
    NotFound,
    ExternalCommandFailed { action: Seq<char>, status: Option<i32> },
    IoError { context: Seq<char>, path: Seq<char> },
    ResolutionError(ResolutionFailure),
}

impl View for Error {
    type V = ErrorView;

    open spec fn view(&self) -> ErrorView {
        match self {
            Error::PermissionDenied => ErrorView::PermissionDenied,
            Error::MissingPermission { path } => ErrorView::MissingPermission { path: path@ },
            Error::NoDevicesFound => ErrorView::NoDevicesFound,
            Error::NotFound => ErrorView::NotFound,
            Error::ExternalCommandFailed { action, status } => ErrorView::ExternalCommandFailed {
                action: action@,
                status: *status,
            },
            Error::IoError { context, path } => ErrorView::IoError {
                context: context@,
                path: path@,
            },
            Error::ResolutionError(failure) => ErrorView::ResolutionError(*failure),
        }
    }
}

/// A result with its error, if it has one, as a view.
pub open spec fn outcome_view<T>(result: Result<T, Error>) -> Result<T, ErrorView> {
    match result {
        Ok(value) => Ok(value),
        Err(e) => Err(e@),
    }
}

impl Clone for Error {
    fn clone(&self) -> (copy: Error)
        ensures
            copy@ == self@,
    {
        match self {
            Error::PermissionDenied => Error::PermissionDenied,
            Error::MissingPermission { path } => Error::MissingPermission { path: path.clone() },
            Error::NoDevicesFound => Error::NoDevicesFound,
            Error::NotFound => Error::NotFound,
            Error::ExternalCommandFailed { action, status } => Error::ExternalCommandFailed {
                action: action.clone(),
                status: *status,
            },
            Error::IoError { context, path } => Error::IoError {
                context: context.clone(),
                path: path.clone(),
            },
            Error::ResolutionError(failure) => Error::ResolutionError(*failure),
        }
    }
}

/// How an exit status reads in a message.
pub open spec fn status_text(status: Option<i32>) -> Seq<char> {
    match status {
        Some(code) => "exit status: "@ + signed_decimal(code as int),
        None => "terminated by a signal"@,
    }
}

impl ResolutionFailure {
    /// The sentence that reports this failure.
    pub open spec fn message(self) -> Seq<char> {
        match self {
            ResolutionFailure::UserUnknown => "Unable to resolve the current user"@,
            ResolutionFailure::ListingNotRun => "Failed to query dscl for group IDs"@,
            ResolutionFailure::ListingFailed { status } => "dscl exited with status "@
                + status_text(status) + " while searching for a free gid"@,
            ResolutionFailure::ListingNotText => "dscl output was not UTF-8"@,
            ResolutionFailure::IdsExhausted => "No group id at or above the minimum is free"@,
        }
    }
}

impl ErrorView {
    /// The sentence that reports this failure to the operator. It names the
    /// action that failed and the path it failed on, where there is one.
    pub open spec fn message(self) -> Seq<char> {
        match self {
            ErrorView::PermissionDenied =>
                "This command must be executed with elevated privileges (sudo)."@,
            ErrorView::MissingPermission { path } => "Missing read/write permissions for "@ + path,
            ErrorView::NoDevicesFound => "No BPF device nodes were found"@,
            ErrorView::NotFound => "No known chmod-bpf daemon configuration was found"@,
            ErrorView::ExternalCommandFailed { action, status } => action
                + " returned a non-zero exit status: "@ + status_text(status),
            ErrorView::IoError { context, path } => context + ": "@ + path,
            ErrorView::ResolutionError(failure) => failure.message(),
        }
    }
}

fn status_string(status: Option<i32>) -> (text: String)
    ensures
        text@ == status_text(status),
{
    match status {
        Some(code) => {
            let mut text = "exit status: ".to_owned();
            let digits = signed_decimal_string(code);
            text.append(digits.as_str());
            text
        },
        None => "terminated by a signal".to_owned(),
    }
}

impl Error {
    /// The sentence that reports this failure to the operator.
    pub fn message(&self) -> (text: String)
        ensures
            text@ == self@.message(),
    {
        match self {
            Error::PermissionDenied =>
                "This command must be executed with elevated privileges (sudo).".to_owned(),
            Error::MissingPermission { path } => {
                let mut text = "Missing read/write permissions for ".to_owned();
                text.append(path.as_str());
                text
            },
            Error::NoDevicesFound => "No BPF device nodes were found".to_owned(),
            Error::NotFound => "No known chmod-bpf daemon configuration was found".to_owned(),
            Error::ExternalCommandFailed { action, status } => {
                let mut text = action.clone();
                text.append(" returned a non-zero exit status: ");
                let shown = status_string(*status);
                text.append(shown.as_str());
                text
            },
            Error::IoError { context, path } => {
                let mut text = context.clone();
                text.append(": ");
                text.append(path.as_str());
                text
            },
            Error::ResolutionError(failure) => match failure {
                ResolutionFailure::UserUnknown => "Unable to resolve the current user".to_owned(),
                ResolutionFailure::ListingNotRun => "Failed to query dscl for group IDs".to_owned(),
                ResolutionFailure::ListingFailed { status } => {
                    let mut text = "dscl exited with status ".to_owned();
                    let shown = status_string(*status);
                    text.append(shown.as_str());
                    text.append(" while searching for a free gid");
                    text
                },
                ResolutionFailure::ListingNotText => "dscl output was not UTF-8".to_owned(),
                ResolutionFailure::IdsExhausted =>
                    "No group id at or above the minimum is free".to_owned(),
            },
        }
    }
}

} // verus!
