//! Finding the configuration file.
use vstd::prelude::*;

verus! {

/// What was found at the place where the configuration file is kept.
#[derive(Debug, Clone, Copy, PartialEq, Eq, Structural)]
pub struct ConfigLocation {
    /// The configuration file is there.
    pub file_exists: bool,
    /// The directory that holds it is there.
    pub directory_exists: bool,
}

/// How the configuration file is come by.
#[derive(Debug, Clone, Copy, PartialEq, Eq, Structural)]
pub enum ConfigAccess {
    /// Open the file that is there.
    Open,
    /// Create the file in the directory that is there.
    Create,
    /// Create the directory with all that leads to it, then the file.
    CreateWithDirectory,
}

/// Why the configuration file cannot be come by.
#[derive(Debug, Clone, Copy, PartialEq, Eq, Structural)]
pub enum ConfigAccessError {
    /// The platform names no directory for configuration files.
    DirectoryNotFound,
}

impl ConfigAccessError {
    pub open spec fn spec_text(self) -> Seq<char> {
        "Config directory not found"@
    }

    /// The error in words.
    pub fn text(&self) -> (r: &'static str)
        ensures
            r@ == self.spec_text(),
    {
        "Config directory not found"
    }
}

/// What `get_config` decides.
pub open spec fn access(location: Option<ConfigLocation>) -> Result<ConfigAccess, ConfigAccessError> {
    match location {
        None => Err(ConfigAccessError::DirectoryNotFound),
        Some(found) => if found.file_exists {
            Ok(ConfigAccess::Open)
        } else if found.directory_exists {
            Ok(ConfigAccess::Create)
        } else {
            Ok(ConfigAccess::CreateWithDirectory)
        },
    }
}

/// Decides how the configuration file is come by. `location` is `None` where
/// the platform names no directory for configuration files. A file that is
/// there is opened; one that is missing is created, after its directory
/// where that is missing too.
pub fn get_config(location: Option<ConfigLocation>) -> (r: Result<ConfigAccess, ConfigAccessError>)
    ensures
        r == access(location),
{
    match location {
        None => Err(ConfigAccessError::DirectoryNotFound),
        Some(found) => {
            if found.file_exists {
                Ok(ConfigAccess::Open)
            } else if found.directory_exists {
                Ok(ConfigAccess::Create)
            } else {
                Ok(ConfigAccess::CreateWithDirectory)
            }
        },
    }
}

} // verus!
