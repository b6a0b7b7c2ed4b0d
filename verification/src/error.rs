//! What can go wrong while an image is cleaned.
use vstd::prelude::*;

verus! {

/// Failure to clean an image. Each variant carries the reason as text.
#[derive(Clone, Debug, PartialEq, Eq)]
pub enum CleanError {
    /// The bytes are not an ELF image that can be read: bad magic, an
    /// unsupported class, truncated or inconsistent tables.
    Parse(String),
    /// The edited image cannot be laid out again.
    Serialize(String),
}

impl CleanError {
    /// The reason, as text.
    pub fn reason(&self) -> (r: &String)
        ensures
            match self {
                CleanError::Parse(text) => r == text,
                CleanError::Serialize(text) => r == text,
            },
    {
        match self {
            CleanError::Parse(text) => text,
            CleanError::Serialize(text) => text,
        }
    }
}

} // verus!
