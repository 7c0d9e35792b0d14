//! Failures of the configuration's load, save and validation.
use vstd::prelude::*;

verus! {

/// What went wrong, with the configuration file's path and the cause's
/// description where there is one.
#[derive(Debug, Clone)]
pub enum Error {
    /// The file could not be opened or read by the blocking load.
    LoadConfig { file: String, message: String },
    /// The file could not be opened or read by the non-blocking load.
    LoadConfigAsync { file: String, message: String },
    /// The file's text is not a valid record.
    LoadConfigJson { file: String, message: String },
    /// The directory or the file could not be created or written.
    SaveConfig { file: String, message: String },
    /// The record could not be encoded.
    SaveConfigJson { file: String, message: String },
    /// The record holds no email address.
    ConfigMissingEmail,
}

} // verus!
