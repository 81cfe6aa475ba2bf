//! The ways in which resolving a configuration can fail.

use vstd::prelude::*;

verus! {

/// Why no configuration could be resolved.
#[derive(Debug, Clone, Copy, PartialEq, Eq, Structural)]
pub enum ConfigError {
    /// A directory could not be created, or the file could not be written or read.
    IoFailure,
    /// The default configuration could not be serialized.
    EncodeFailure,
    /// The file is not well-formed, or one of its fields has an incompatible type.
    DecodeFailure,
}

impl ConfigError {
    /// A short description for diagnostics.
    pub fn message(&self) -> (text: &'static str)
        ensures
            text@ == self.message_text(),
    {
        match self {
            ConfigError::IoFailure => "configuration file or directory is not accessible",
            ConfigError::EncodeFailure => "default configuration could not be serialized",
            ConfigError::DecodeFailure => "configuration file could not be decoded",
        }
    }

    /// The text that [`ConfigError::message`] returns.
    pub open spec fn message_text(&self) -> Seq<char> {
        match self {
            ConfigError::IoFailure => "configuration file or directory is not accessible"@,
            ConfigError::EncodeFailure => "default configuration could not be serialized"@,
            ConfigError::DecodeFailure => "configuration file could not be decoded"@,
        }
    }
}

} // verus!
