//! Platform directories that the client keeps its files under.

use crate::paths::{join, join_path};
use crate::NAME;
use vstd::prelude::*;

verus! {

/// A platform directory of the current user.
#[derive(Debug, Clone, Copy, PartialEq, Eq)]
pub enum Directory {
    Cache,
}

/// The application's own directory below the platform directory `base`.
pub open spec fn app_dir(base: Seq<char>) -> Seq<char> {
    join_path(base, NAME@)
}

/// Relies on `dirs::cache_dir`: the user's cache directory, when the platform
/// defines one. The answer depends on the environment, so nothing is promised
/// of it.
#[verifier::external_body]
fn platform_cache_dir() -> (r: Option<String>) {
    dirs::cache_dir().map(|path| path.to_string_lossy().into_owned())
}

impl Directory {
    /// The application's directory below `base`, the platform directory that
    /// was looked up; without one the directory itself is handed back.
    pub fn resolve(self, base: Option<String>) -> (r: Result<String, Directory>)
        ensures
            match base {
                Some(b) => r matches Ok(p) && p@ == app_dir(b@),
                None => r == Err::<String, Directory>(self),
            },
    {
        match base {
            Some(b) => Ok(join(b.as_str(), NAME)),
            None => Err(self),
        }
    }

    /// Looks the platform directory up and appends the application's name.
    pub fn get(self) -> (r: Result<String, Directory>)
        ensures
            r matches Ok(p) ==> exists|b: Seq<char>| p@ == app_dir(b),
            r matches Err(d) ==> d == self,
    {
        let base = match self {
            Directory::Cache => platform_cache_dir(),
        };
        self.resolve(base)
    }

    /// The directory's name as shown to the user.
    pub fn name(&self) -> (r: &'static str)
        ensures
            r@ == "cache"@,
    {
        "cache"
    }
}

} // verus!
