//! Values handed to the user interface.

use vstd::prelude::*;

verus! {

/// The envelope of every answer to the user interface: either the data of
/// a success or the message of a failure, never both.
#[derive(Clone, Debug, PartialEq, Eq)]
pub struct ApiResponse<T> {
    pub success: bool,
    pub data: Option<T>,
    pub error: Option<String>,
}

impl<T> ApiResponse<T> {
    /// The envelope is one that `success` or `error` builds.
    pub open spec fn well_formed(&self) -> bool {
        if self.success {
            self.data is Some && self.error is None
        } else {
            self.data is None && self.error is Some
        }
    }

    /// An answer that carries `data`.
    pub fn success(data: T) -> (r: Self)
        ensures
            r.success,
            r.data == Some(data),
            r.error is None,
            r.well_formed(),
    {
        Self { success: true, data: Some(data), error: None }
    }

    /// An answer that carries the message `error` and no data.
    pub fn error(error: String) -> (r: Self)
        ensures
            !r.success,
            r.data is None,
            r.error == Some(error),
            r.well_formed(),
    {
        Self { success: false, data: None, error: Some(error) }
    }
}

/// The space that the application's data takes, for display and in bytes.
#[derive(Clone, Debug, PartialEq, Eq)]
pub struct StorageInfo {
    pub cache_size: String,
    pub database_size: String,
    pub cache_size_bytes: u64,
    pub database_size_bytes: u64,
}

/// What is known of a remote file before it is fetched.
#[derive(Clone, Debug, PartialEq, Eq)]
pub struct FileInfo {
    pub size: u64,
}

} // verus!
