//! Making sure that a configuration file exists before it is read.
//!
//! The file is written once, from the defaults, when none is found, and is
//! never written again. The writing itself is done by the caller; this
//! module decides whether to write, and what a failed attempt means.

use crate::error::ConfigError;
use vstd::prelude::*;

verus! {

/// What is to be done about the configuration file before it is read.
#[derive(Debug, Clone, Copy, PartialEq, Eq, Structural)]
pub enum BootstrapAction {
    /// Create the parent directories, serialize the defaults, and write them to the path.
    WriteDefaults,
    /// Leave the file as it is.
    LeaveUntouched,
}

/// How the bootstrap of the configuration file went.
#[derive(Debug, Clone, Copy, PartialEq, Eq, Structural)]
pub enum Bootstrap {
    /// A file was there already, and was left untouched.
    AlreadyPresent,
    /// No file was there, and the defaults were written.
    Created,
    /// A parent directory could not be created.
    DirectoryFailed,
    /// The defaults could not be serialized.
    EncodeFailed,
    /// The file could not be written.
    WriteFailed,
}

/// A file is written exactly if none exists.
pub open spec fn planned_action(file_exists: bool) -> BootstrapAction {
    if file_exists {
        BootstrapAction::LeaveUntouched
    } else {
        BootstrapAction::WriteDefaults
    }
}

/// Decides what to do about the configuration file, given whether one exists.
pub fn bootstrap_action(file_exists: bool) -> (action: BootstrapAction)
    ensures
        action == planned_action(file_exists),
{
    if file_exists {
        BootstrapAction::LeaveUntouched
    } else {
        BootstrapAction::WriteDefaults
    }
}

/// The text of the file after an action was carried out, given the text
/// before it; `None` is no file. `template` is the serialized defaults.
pub open spec fn file_after(action: BootstrapAction, before: Option<Seq<char>>, template: Seq<char>)
    -> Option<Seq<char>> {
    match action {
        BootstrapAction::WriteDefaults => Some(template),
        BootstrapAction::LeaveUntouched => before,
    }
}

/// The text of the file after a bootstrap that went through.
pub open spec fn bootstrapped(before: Option<Seq<char>>, template: Seq<char>) -> Option<Seq<char>> {
    file_after(planned_action(before is Some), before, template)
}

/// The error that ends the resolution after a bootstrap, if it failed.
pub open spec fn failure_of(bootstrap: Bootstrap) -> Option<ConfigError> {
    match bootstrap {
        Bootstrap::AlreadyPresent => None,
        Bootstrap::Created => None,
        Bootstrap::DirectoryFailed => Some(ConfigError::IoFailure),
        Bootstrap::EncodeFailed => Some(ConfigError::EncodeFailure),
        Bootstrap::WriteFailed => Some(ConfigError::IoFailure),
    }
}

/// Says whether a bootstrap failed, and with which error.
pub fn bootstrap_failure(bootstrap: Bootstrap) -> (failure: Option<ConfigError>)
    ensures
        failure == failure_of(bootstrap),
{
    match bootstrap {
        Bootstrap::AlreadyPresent => None,
        Bootstrap::Created => None,
        Bootstrap::DirectoryFailed => Some(ConfigError::IoFailure),
        Bootstrap::EncodeFailed => Some(ConfigError::EncodeFailure),
        Bootstrap::WriteFailed => Some(ConfigError::IoFailure),
    }
}

} // verus!
