//! The failures that can end one invocation of the tool.

use vstd::prelude::*;

verus! {

/// Every way a resolution (or the launch that follows it) can fail. Each
/// variant is terminal: the program reports it and exits with a non-zero
/// status, with no retry and no partial success.
#[derive(Clone, Copy, Debug, PartialEq, Eq, Structural)]
pub enum ResolveError {
    /// The alias configuration file could not be read.
    AliasFileUnreadable,
    /// The alias configuration file is not a JSON object of string pairs.
    AliasFileMalformed,
    /// The requested alias is not present in the table.
    AliasNotFound,
    /// Alias mode was invoked without an alias name and without the list flag.
    MissingAliasArgument,
    /// The operating system's URL-open helper could not be started.
    LaunchError,
}

impl ResolveError {
    /// A fixed human-readable description of the failure.
    pub fn message(&self) -> (r: &'static str)
        ensures
            *self == ResolveError::AliasFileUnreadable ==> r@ == "failed to read the alias configuration file"@,
            *self == ResolveError::AliasFileMalformed ==> r@ == "failed to parse the alias configuration file"@,
            *self == ResolveError::AliasNotFound ==> r@ == "alias not found in the configuration file"@,
            *self == ResolveError::MissingAliasArgument ==> r@ == "an alias argument is required"@,
            *self == ResolveError::LaunchError ==> r@ == "failed to start the browser"@,
    {
        match self {
            ResolveError::AliasFileUnreadable => "failed to read the alias configuration file",
            ResolveError::AliasFileMalformed => "failed to parse the alias configuration file",
            ResolveError::AliasNotFound => "alias not found in the configuration file",
            ResolveError::MissingAliasArgument => "an alias argument is required",
            ResolveError::LaunchError => "failed to start the browser",
        }
    }
}

} // verus!
