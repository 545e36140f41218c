//! The failure taxonomy of the service.

use vstd::prelude::*;

verus! {

/// Everything that can go wrong in the service. Each variant but
/// `QueueClosed` carries a human-readable detail.
#[derive(Debug, PartialEq, Eq)]
pub enum ZkpError {
    /// The prover executable could not be launched at all.
    NoirCommandError(String),
    /// The prover exited unsuccessfully or left no readable proof behind.
    ProofGenerationError(String),
    KeyGenerationError(String),
    StateError(String),
    DecryptionError(String),
    /// An unknown job identifier or malformed request data.
    InvalidInput(String),
    IoError(String),
    /// A structured document could not be read or written.
    JsonError(String),
    GitCloneError(String),
    /// The work queue no longer accepts jobs.
    QueueClosed,
}

pub type ZkpResult<T> = Result<T, ZkpError>;

/// The mathematical value of a [`ZkpError`].
pub enum ZkpErrorView {
    NoirCommandError(Seq<char>),
    ProofGenerationError(Seq<char>),
    KeyGenerationError(Seq<char>),
    StateError(Seq<char>),
    DecryptionError(Seq<char>),
    InvalidInput(Seq<char>),
    IoError(Seq<char>),
    JsonError(Seq<char>),
    GitCloneError(Seq<char>),
    QueueClosed,
}

impl View for ZkpError {
    type V = ZkpErrorView;

    open spec fn view(&self) -> ZkpErrorView {
        match self {
            ZkpError::NoirCommandError(m) => ZkpErrorView::NoirCommandError(m@),
            ZkpError::ProofGenerationError(m) => ZkpErrorView::ProofGenerationError(m@),
            ZkpError::KeyGenerationError(m) => ZkpErrorView::KeyGenerationError(m@),
            ZkpError::StateError(m) => ZkpErrorView::StateError(m@),
            ZkpError::DecryptionError(m) => ZkpErrorView::DecryptionError(m@),
            ZkpError::InvalidInput(m) => ZkpErrorView::InvalidInput(m@),
            ZkpError::IoError(m) => ZkpErrorView::IoError(m@),
            ZkpError::JsonError(m) => ZkpErrorView::JsonError(m@),
            ZkpError::GitCloneError(m) => ZkpErrorView::GitCloneError(m@),
            ZkpError::QueueClosed => ZkpErrorView::QueueClosed,
        }
    }
}

impl ZkpErrorView {
    /// The detail an error carries: its payload, or a fixed sentence for
    /// the one variant without a payload.
    pub open spec fn detail(self) -> Seq<char> {
        match self {
            ZkpErrorView::NoirCommandError(m) => m,
            ZkpErrorView::ProofGenerationError(m) => m,
            ZkpErrorView::KeyGenerationError(m) => m,
            ZkpErrorView::StateError(m) => m,
            ZkpErrorView::DecryptionError(m) => m,
            ZkpErrorView::InvalidInput(m) => m,
            ZkpErrorView::IoError(m) => m,
            ZkpErrorView::JsonError(m) => m,
            ZkpErrorView::GitCloneError(m) => m,
            ZkpErrorView::QueueClosed => "the work queue no longer accepts jobs"@,
        }
    }

    /// What precedes the detail in the full message.
    pub open spec fn heading(self) -> Seq<char> {
        match self {
            ZkpErrorView::NoirCommandError(_) => "Noir command execution failed: "@,
            ZkpErrorView::ProofGenerationError(_) => "Proof generation failed: "@,
            ZkpErrorView::KeyGenerationError(_) => "Key generation failed: "@,
            ZkpErrorView::StateError(_) => "State operation failed: "@,
            ZkpErrorView::DecryptionError(_) => "Decryption failed: "@,
            ZkpErrorView::InvalidInput(_) => "Invalid input: "@,
            ZkpErrorView::IoError(_) => "IO error: "@,
            ZkpErrorView::JsonError(_) => "JSON serialization error: "@,
            ZkpErrorView::GitCloneError(_) => "Git clone failed: "@,
            ZkpErrorView::QueueClosed => "Queue closed: "@,
        }
    }

    /// The full message shown to a caller: heading, then detail.
    pub open spec fn message(self) -> Seq<char> {
        self.heading() + self.detail()
    }
}

impl ZkpError {
    /// The detail this error carries, without its heading.
    pub fn detail(&self) -> (text: String)
        ensures
            text@ == self@.detail(),
    {
        match self {
            ZkpError::NoirCommandError(m) => m.clone(),
            ZkpError::ProofGenerationError(m) => m.clone(),
            ZkpError::KeyGenerationError(m) => m.clone(),
            ZkpError::StateError(m) => m.clone(),
            ZkpError::DecryptionError(m) => m.clone(),
            ZkpError::InvalidInput(m) => m.clone(),
            ZkpError::IoError(m) => m.clone(),
            ZkpError::JsonError(m) => m.clone(),
            ZkpError::GitCloneError(m) => m.clone(),
            ZkpError::QueueClosed => String::from_str("the work queue no longer accepts jobs"),
        }
    }

    /// The heading that names the kind of failure.
    pub fn heading(&self) -> (text: &'static str)
        ensures
            text@ == self@.heading(),
    {
        match self {
            ZkpError::NoirCommandError(_) => "Noir command execution failed: ",
            ZkpError::ProofGenerationError(_) => "Proof generation failed: ",
            ZkpError::KeyGenerationError(_) => "Key generation failed: ",
            ZkpError::StateError(_) => "State operation failed: ",
            ZkpError::DecryptionError(_) => "Decryption failed: ",
            ZkpError::InvalidInput(_) => "Invalid input: ",
            ZkpError::IoError(_) => "IO error: ",
            ZkpError::JsonError(_) => "JSON serialization error: ",
            ZkpError::GitCloneError(_) => "Git clone failed: ",
            ZkpError::QueueClosed => "Queue closed: ",
        }
    }

    /// The full human-readable message: heading, then detail.
    pub fn message(&self) -> (text: String)
        ensures
            text@ == self@.message(),
    {
        let detail = self.detail();
        String::from_str(self.heading()).concat(detail.as_str())
    }
}

impl Clone for ZkpError {
    fn clone(&self) -> (copy: Self)
        ensures
            copy == *self,
    {
        match self {
            ZkpError::NoirCommandError(m) => ZkpError::NoirCommandError(m.clone()),
            ZkpError::ProofGenerationError(m) => ZkpError::ProofGenerationError(m.clone()),
            ZkpError::KeyGenerationError(m) => ZkpError::KeyGenerationError(m.clone()),
            ZkpError::StateError(m) => ZkpError::StateError(m.clone()),
            ZkpError::DecryptionError(m) => ZkpError::DecryptionError(m.clone()),
            ZkpError::InvalidInput(m) => ZkpError::InvalidInput(m.clone()),
            ZkpError::IoError(m) => ZkpError::IoError(m.clone()),
            ZkpError::JsonError(m) => ZkpError::JsonError(m.clone()),
            ZkpError::GitCloneError(m) => ZkpError::GitCloneError(m.clone()),
            ZkpError::QueueClosed => ZkpError::QueueClosed,
        }
    }
}

} // verus!
