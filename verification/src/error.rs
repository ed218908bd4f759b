//! What can go wrong, and how it is told.

use crate::text::{concat2, concat3};
use vstd::prelude::*;
use vstd::string::StringExecFns;

verus! {

/// The kinds of file-system failure that the rules of the trash can tell
/// apart.
#[derive(Debug, Clone, Copy, PartialEq, Eq, Structural)]
pub enum IoErrorKind {
    /// The path does not exist.
    NotFound,
    /// The operation was not permitted.
    PermissionDenied,
    /// A rename would have moved the item to another file system.
    CrossesDevices,
    /// Any other failure.
    Other,
}

/// A failed file-system operation: its kind and the system's words for it.
#[derive(Debug)]
pub struct IoFailure {
    pub kind: IoErrorKind,
    pub message: String,
}

/// The errors of the trash can.
#[derive(Debug)]
pub enum AppError {
    /// A file-system operation on `path` failed.
    Io { path: String, source: IoFailure },
    /// A file-system operation failed, and no path is known for it.
    GenericIo(IoFailure),
    /// A record could not be read.
    TrashInfoParse { path: String, reason: String },
    /// Something already stands where an item should be restored to.
    RestoreCollision { path: String },
    /// A record exists, the item it describes does not.
    TrashedItemNotFound { path: String },
    /// No trash directory was found.
    NoTrashDirectories,
    /// The item to be trashed lies in the trash already.
    AlreadyInTrash { path: String },
    /// The trash directory is a symbolic link.
    SymbolicLink { path: String },
    /// The item lies on another file system than the trash directory.
    CrossDeviceMove { path: String },
    /// The table of mounted file systems could not be read.
    Mountpoints(String),
    /// The clock gave no usable time.
    SystemTime(String),
    /// Bytes that should have been UTF-8 were not.
    FromUtf8(String),
    /// Any other error, in words.
    Message(String),
    /// An error of which nothing is to be said to the user.
    Ignorable,
}

/// The words in which an error is told.
pub open spec fn error_text(e: AppError) -> Seq<char> {
    match e {
        AppError::Io { path, source } => "I/O error for '"@ + path@ + "': "@ + source.message@,
        AppError::GenericIo(source) => "I/O error: "@ + source.message@,
        AppError::TrashInfoParse { path, reason } => "Failed to parse trash info file '"@ + path@
            + "': "@ + reason@,
        AppError::RestoreCollision { path } => "Destination '"@ + path@
            + "' already exists. Cannot restore."@,
        AppError::TrashedItemNotFound { path } => "Trashed item '"@ + path@
            + "' not found. The trash directory might be in an inconsistent state."@,
        AppError::NoTrashDirectories => "No trash directories found."@,
        AppError::AlreadyInTrash { path } => "Item '"@ + path@ + "' is already in the trash."@,
        AppError::SymbolicLink { path } => "Trash '"@ + path@ + "' is symbolic link."@,
        AppError::CrossDeviceMove { path } => "Cross-device move not supported for '"@ + path@
            + "'. The destination is on a different filesystem."@,
        AppError::Mountpoints(reason) => "Failed to read mount points: "@ + reason@,
        AppError::SystemTime(reason) => "System time error: "@ + reason@,
        AppError::FromUtf8(reason) => "UTF-8 conversion error: "@ + reason@,
        AppError::Message(text) => text@,
        AppError::Ignorable => "Ignorable Error"@,
    }
}

impl AppError {
    /// The words in which this error is told.
    pub fn message(&self) -> (r: String)
        ensures
            r@ == error_text(*self),
    {
        match self {
            AppError::Io { path, source } => {
                let head = concat3("I/O error for '", path.as_str(), "': ");
                concat2(head.as_str(), source.message.as_str())
            },
            AppError::GenericIo(source) => concat2("I/O error: ", source.message.as_str()),
            AppError::TrashInfoParse { path, reason } => {
                let head = concat3("Failed to parse trash info file '", path.as_str(), "': ");
                concat2(head.as_str(), reason.as_str())
            },
            AppError::RestoreCollision { path } => concat3(
                "Destination '",
                path.as_str(),
                "' already exists. Cannot restore.",
            ),
            AppError::TrashedItemNotFound { path } => concat3(
                "Trashed item '",
                path.as_str(),
                "' not found. The trash directory might be in an inconsistent state.",
            ),
            AppError::NoTrashDirectories => String::from_str("No trash directories found."),
            AppError::AlreadyInTrash { path } => concat3(
                "Item '",
                path.as_str(),
                "' is already in the trash.",
            ),
            AppError::SymbolicLink { path } => concat3(
                "Trash '",
                path.as_str(),
                "' is symbolic link.",
            ),
            AppError::CrossDeviceMove { path } => concat3(
                "Cross-device move not supported for '",
                path.as_str(),
                "'. The destination is on a different filesystem.",
            ),
            AppError::Mountpoints(reason) => concat2(
                "Failed to read mount points: ",
                reason.as_str(),
            ),
            AppError::SystemTime(reason) => concat2("System time error: ", reason.as_str()),
            AppError::FromUtf8(reason) => concat2("UTF-8 conversion error: ", reason.as_str()),
            AppError::Message(text) => text.clone(),
            AppError::Ignorable => String::from_str("Ignorable Error"),
        }
    }
}

impl From<&str> for AppError {
    /// An error that says `s`.
    fn from(s: &str) -> (r: AppError)
        ensures
            r matches AppError::Message(text) && text@ == s@,
    {
        AppError::Message(String::from_str(s))
    }
}

impl vstd::std_specs::convert::FromSpecImpl<&str> for AppError {
    /// No value in a contract can hold a string, so what `from` returns is
    /// said by its own `ensures`.
    open spec fn obeys_from_spec() -> bool {
        false
    }

    open spec fn from_spec(s: &str) -> AppError {
        arbitrary()
    }
}

} // verus!
