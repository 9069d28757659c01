//! Errors of the client. Causes that come from the operating system or the
//! network are carried as their rendered messages.

use vstd::prelude::*;

verus! {

/// Why a release configuration was refused.
#[derive(Debug, Clone, PartialEq, Eq)]
pub enum ConfigError {
    /// The text is not a well-formed document; carries the parser's message.
    Syntax(String),
    /// A required key is absent.
    MissingField(String),
    /// A key holds a value of the wrong kind.
    InvalidType(String),
    /// A key that must hold a non-empty string holds an empty one.
    EmptyField(String),
    /// The screenshot at this index is an empty string.
    EmptyScreenshot(usize),
}

#[derive(Debug, Clone, PartialEq, Eq)]
pub enum MainError {
    CreateClient(String),
    CreateDirectory(String, String),
    CreateFile(String, String),
    CreateRuntime(String),
    CreateTempDir(String),
    /// The cause, then the raw body that could not be decoded.
    DecodeResponse(String, String),
    /// The cause, then the command line that failed.
    ExecuteCommand(String, String),
    ReadLine(String),
    GetCache,
    GetToken,
    NoEditor,
    NonExistantProject(String),
    ParseReleaseConfig(ConfigError),
    /// The cause, then the path.
    ReadFile(String, String),
    /// The cause, then the path.
    WriteFile(String, String),
    ExecuteRequest(String),
    /// An application-level refusal, with the server's message when it gave one.
    Server(Option<String>),
}

} // verus!
