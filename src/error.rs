use vstd::prelude::*;
use crate::config::EntryKind;

verus! {

/// Why an explosion stopped. Nothing is rolled back: entries moved before the
/// failure stay moved.
#[derive(Debug)]
pub enum ExplodeError {
    /// The source path does not exist.
    SourceNotFound { source: String },
    /// The source path exists but is not a directory.
    SourceNotADirectory { source: String },
    /// The destination path exists but is not a directory.
    TargetNotADirectory { destination: String },
    /// An entry of the source is already present in the destination, and
    /// overwriting was not allowed. `kind` is the kind of the source entry.
    AlreadyExists { kind: EntryKind, name: String, destination: String },
    /// Creating the missing destination directory failed.
    CreateDestination { reason: String },
    /// Listing the source directory failed.
    ReadSource { source: String, reason: String },
    /// Moving or copying one entry failed.
    Transfer { from: String, to: String, reason: String },
    /// Removing the source directory at the end failed.
    RemoveSource { source: String, reason: String },
}

impl ExplodeError {
    /// The one-line message that describes the failure.
    pub open spec fn message_spec(&self) -> Seq<char> {
        match self {
            ExplodeError::SourceNotFound { source } =>
                "Source path "@ + source@ + " does not exist"@,
            ExplodeError::SourceNotADirectory { source } =>
                "Source path "@ + source@ + " is not a directory"@,
            ExplodeError::TargetNotADirectory { destination } =>
                "Target path "@ + destination@ + " is not a directory"@,
            ExplodeError::AlreadyExists { kind, name, destination } =>
                kind.label_spec() + " "@ + name@ + " already exists in "@ + destination@,
            ExplodeError::CreateDestination { .. } =>
                "Failed to create destination dir"@,
            ExplodeError::ReadSource { source, .. } =>
                "Failed to read directory "@ + source@,
            ExplodeError::Transfer { from, to, .. } =>
                "Failed to move or copy "@ + from@ + " to "@ + to@,
            ExplodeError::RemoveSource { source, .. } =>
                "Failed to remove directory "@ + source@,
        }
    }

    /// Returns the one-line message that describes the failure.
    pub fn message(&self) -> (r: String)
        ensures
            r@ == self.message_spec(),
    {
        match self {
            ExplodeError::SourceNotFound { source } => {
                let mut m = String::from_str("Source path ");
                m.append(source.as_str());
                m.append(" does not exist");
                m
            },
            ExplodeError::SourceNotADirectory { source } => {
                let mut m = String::from_str("Source path ");
                m.append(source.as_str());
                m.append(" is not a directory");
                m
            },
            ExplodeError::TargetNotADirectory { destination } => {
                let mut m = String::from_str("Target path ");
                m.append(destination.as_str());
                m.append(" is not a directory");
                m
            },
            ExplodeError::AlreadyExists { kind, name, destination } => {
                let mut m = kind.label();
                m.append(" ");
                m.append(name.as_str());
                m.append(" already exists in ");
                m.append(destination.as_str());
                m
            },
            ExplodeError::CreateDestination { .. } => String::from_str(
                "Failed to create destination dir",
            ),
            ExplodeError::ReadSource { source, .. } => {
                let mut m = String::from_str("Failed to read directory ");
                m.append(source.as_str());
                m
            },
            ExplodeError::Transfer { from, to, .. } => {
                let mut m = String::from_str("Failed to move or copy ");
                m.append(from.as_str());
                m.append(" to ");
                m.append(to.as_str());
                m
            },
            ExplodeError::RemoveSource { source, .. } => {
                let mut m = String::from_str("Failed to remove directory ");
                m.append(source.as_str());
                m
            },
        }
    }

    /// The underlying I/O failure, for the errors that wrap one.
    pub open spec fn reason_spec(&self) -> Option<Seq<char>> {
        match self {
            ExplodeError::CreateDestination { reason } => Some(reason@),
            ExplodeError::ReadSource { reason, .. } => Some(reason@),
            ExplodeError::Transfer { reason, .. } => Some(reason@),
            ExplodeError::RemoveSource { reason, .. } => Some(reason@),
            _ => None,
        }
    }

    /// Returns the underlying I/O failure, for the errors that wrap one.
    pub fn reason(&self) -> (r: Option<String>)
        ensures
            match r {
                Some(s) => self.reason_spec() == Some(s@),
                None => self.reason_spec() is None,
            },
    {
        match self {
            ExplodeError::CreateDestination { reason } => Some(reason.clone()),
            ExplodeError::ReadSource { reason, .. } => Some(reason.clone()),
            ExplodeError::Transfer { reason, .. } => Some(reason.clone()),
            ExplodeError::RemoveSource { reason, .. } => Some(reason.clone()),
            _ => None,
        }
    }
}

} // verus!
