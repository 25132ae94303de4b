use vstd::prelude::*;

verus! {

/// Why a path handed over by the file manager's context menu could not be inspected.
#[derive(Debug, PartialEq, Eq)]
pub enum FinderError {
    /// The host could not create or reach a window; carries the host's message.
    Tauri(String),
    /// The pasteboard held no file URL.
    FailedToGetPath,
    /// The URL has no path, or the file no longer exists.
    PathInvalidOrNoLongerExists,
    /// The path is not valid UTF-8.
    PathInvalidUtf8,
}

/// The numeric code of each error, as reported to the operating system.
pub open spec fn code_of(e: FinderError) -> int {
    match e {
        FinderError::Tauri(_) => 1001,
        FinderError::FailedToGetPath => 1002,
        FinderError::PathInvalidOrNoLongerExists => 1003,
        FinderError::PathInvalidUtf8 => 1004,
    }
}

/// The message of each error, as shown to the user.
pub open spec fn message_of(e: FinderError) -> Seq<char> {
    match e {
        FinderError::Tauri(m) => m@,
        FinderError::FailedToGetPath => "Failed to get file path from the context menu"@,
        FinderError::PathInvalidOrNoLongerExists => "Failed to parse file path from the context menu"@,
        FinderError::PathInvalidUtf8 => "Failed to parse file path from the context menu"@,
    }
}

impl FinderError {
    /// The numeric code of this error.
    pub fn code(&self) -> (r: isize)
        ensures
            r as int == code_of(*self),
    {
        match self {
            FinderError::Tauri(_) => 1001,
            FinderError::FailedToGetPath => 1002,
            FinderError::PathInvalidOrNoLongerExists => 1003,
            FinderError::PathInvalidUtf8 => 1004,
        }
    }

    /// The message of this error.
    pub fn message(&self) -> (r: String)
        ensures
            r@ == message_of(*self),
    {
        match self {
            FinderError::Tauri(m) => m.clone(),
            FinderError::FailedToGetPath => "Failed to get file path from the context menu".to_owned(),
            FinderError::PathInvalidOrNoLongerExists => "Failed to parse file path from the context menu".to_owned(),
            FinderError::PathInvalidUtf8 => "Failed to parse file path from the context menu".to_owned(),
        }
    }
}

/// Withdraws the context-menu service. Where the platform registers none, nothing is left to
/// withdraw.
pub fn unload() {
}

} // verus!
