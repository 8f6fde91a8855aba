//! Errors reported while turning a configuration into a client.
use vstd::prelude::*;

verus! {

/// A required setting that is absent or unusable.
#[derive(Debug, Clone, Copy, PartialEq, Eq, Structural)]
pub enum ConfigurationError {
    MissingDomain,
    EmptyDomain,
    MissingEmail,
    EmptyEmail,
    MissingToken,
    EmptyToken,
}

impl ConfigurationError {
    /// A sentence that names the setting at fault.
    pub fn message(&self) -> (r: &'static str)
        ensures
            *self == ConfigurationError::MissingDomain ==> r@ == "Domain is required"@,
            *self == ConfigurationError::EmptyDomain ==> r@ == "Domain cannot be empty"@,
            *self == ConfigurationError::MissingEmail ==> r@ == "Email is required"@,
            *self == ConfigurationError::EmptyEmail ==> r@ == "Email cannot be empty"@,
            *self == ConfigurationError::MissingToken ==> r@ == "API token is required"@,
            *self == ConfigurationError::EmptyToken ==> r@ == "API token cannot be empty"@,
    {
        match self {
            ConfigurationError::MissingDomain => "Domain is required",
            ConfigurationError::EmptyDomain => "Domain cannot be empty",
            ConfigurationError::MissingEmail => "Email is required",
            ConfigurationError::EmptyEmail => "Email cannot be empty",
            ConfigurationError::MissingToken => "API token is required",
            ConfigurationError::EmptyToken => "API token cannot be empty",
        }
    }
}

/// Why building a client failed.
#[derive(Debug)]
pub enum BuildError {
    /// The settings are incomplete; nothing was attempted.
    Configuration(ConfigurationError),
    /// The credentials do not form a valid header value. `build` never
    /// returns it: a Basic value made of base64 text is always valid.
    InvalidHeader,
    /// The transport could not be set up.
    Request(reqwest::Error),
}

} // verus!
