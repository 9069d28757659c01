//! Client library for the neighborhood event service: cache paths, project
//! identifiers, media uploads, the two-way join used by parallel uploads, the
//! edit / validate / retry cycle of release configurations, and the steps of
//! posting a release.

pub mod api;
pub mod cache;
pub mod directories;
pub mod edit;
pub mod error;
pub mod join;
pub mod paths;
pub mod release;
pub mod upload;
pub mod workflow;

use vstd::prelude::*;

verus! {

/// The application's name, used as the namespace of its cache directory.
pub const NAME: &'static str = "neighborhood_cli";

/// The application's version.
pub const VERSION: &'static str = "1.0.1";

/// How two uploads of one command are run.
#[derive(Debug, Clone, Copy, PartialEq, Eq)]
pub enum UploadMode {
    /// One after the other: the second starts once the first is done.
    Sequential,
    /// Both at once, which holds both files in memory together.
    Parallel,
}

/// Settings shared by every command.
#[derive(Debug, Clone, Copy, PartialEq, Eq)]
pub struct RootConfig {
    pub async_upload: bool,
}

impl RootConfig {
    pub fn new(async_upload: bool) -> (r: RootConfig)
        ensures
            r.async_upload == async_upload,
    {
        RootConfig { async_upload }
    }

    /// Uploads run at once only when the user asked for it.
    pub fn upload_mode(&self) -> (r: UploadMode)
        ensures
            r == (if self.async_upload {
                UploadMode::Parallel
            } else {
                UploadMode::Sequential
            }),
    {
        if self.async_upload {
            UploadMode::Parallel
        } else {
            UploadMode::Sequential
        }
    }
}

} // verus!
