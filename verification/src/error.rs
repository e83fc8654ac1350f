//! The error taxonomy of the harvester. Every failing step of the pipeline
//! reports one of these variants; the contracts of the verified functions say
//! exactly which variant each input produces.

use vstd::prelude::*;

verus! {

/// One error of the harvesting pipeline.
#[derive(Debug)]
pub enum RedditError {
    /// The HTTP transport failed or reported a non-success status.
    Network,
    /// A listing body was not a well-formed document.
    Parse,
    /// Downloaded bytes were not a recognized image format.
    Decode,
    /// Re-encoding a decoded image failed.
    Encode,
    /// A filesystem create or write failed.
    Io,
    /// A spawned image task terminated abnormally.
    TaskJoin,
    /// An internally raised condition, with its text.
    Message(String),
}

pub type RedditResult<T> = Result<T, RedditError>;

impl RedditError {
    /// The text shown for this error.
    pub open spec fn message_spec(&self) -> Seq<char> {
        match self {
            RedditError::Network => "network request failed"@,
            RedditError::Parse => "listing body could not be parsed"@,
            RedditError::Decode => "image bytes could not be decoded"@,
            RedditError::Encode => "image could not be re-encoded"@,
            RedditError::Io => "file could not be written"@,
            RedditError::TaskJoin => "task joining failed"@,
            RedditError::Message(m) => m@,
        }
    }

    /// A human-readable description of the error.
    pub fn message(&self) -> (r: String)
        ensures
            r@ == self.message_spec(),
    {
        match self {
            RedditError::Network => String::from_str("network request failed"),
            RedditError::Parse => String::from_str("listing body could not be parsed"),
            RedditError::Decode => String::from_str("image bytes could not be decoded"),
            RedditError::Encode => String::from_str("image could not be re-encoded"),
            RedditError::Io => String::from_str("file could not be written"),
            RedditError::TaskJoin => String::from_str("task joining failed"),
            RedditError::Message(m) => m.clone(),
        }
    }
}

} // verus!
