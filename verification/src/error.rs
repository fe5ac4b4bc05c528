use vstd::prelude::*;

verus! {

/// A call-level failure: the caller's primary request cannot be satisfied.
///
/// Per-entry extraction failures inside an install tree are never reported
/// through this type; they only make an entry absent from, or empty in, the
/// resulting map.
#[derive(Clone, Copy, Debug, PartialEq, Eq, Structural)]
pub enum QueryError {
    /// The primary package's manifest file could not be read.
    ManifestRead,
    /// The primary package's manifest did not yield a name and a version.
    ManifestParse,
    /// The primary package's lock file could not be read.
    LockRead,
    /// The primary package's lock file was present but not a lock document.
    LockParse,
    /// The primary package's config file could not be read.
    ConfigRead,
    /// The primary package's config file was present but not a config document.
    ConfigParse,
    /// The registry metadata document had no usable versions section.
    VersionsNotFound,
    /// No registry host name is configured for the extension.
    NoRegistryHost,
}

impl QueryError {
    /// The description carried by this error.
    pub open spec fn spec_message(&self) -> Seq<char> {
        match self {
            QueryError::ManifestRead => "failed to read package manifest"@,
            QueryError::ManifestParse => "failed to parse package name and version from manifest"@,
            QueryError::LockRead => "failed to read lock file"@,
            QueryError::LockParse => "failed to parse lock file"@,
            QueryError::ConfigRead => "failed to read config file"@,
            QueryError::ConfigParse => "failed to parse config file"@,
            QueryError::VersionsNotFound => "failed to find versions JSON section"@,
            QueryError::NoRegistryHost => "at least one registry host name expected"@,
        }
    }

    pub fn message(&self) -> (r: String)
        ensures
            r@ == self.spec_message(),
    {
        match self {
            QueryError::ManifestRead => "failed to read package manifest".to_owned(),
            QueryError::ManifestParse => "failed to parse package name and version from manifest"
                .to_owned(),
            QueryError::LockRead => "failed to read lock file".to_owned(),
            QueryError::LockParse => "failed to parse lock file".to_owned(),
            QueryError::ConfigRead => "failed to read config file".to_owned(),
            QueryError::ConfigParse => "failed to parse config file".to_owned(),
            QueryError::VersionsNotFound => "failed to find versions JSON section".to_owned(),
            QueryError::NoRegistryHost => "at least one registry host name expected".to_owned(),
        }
    }
}

} // verus!
