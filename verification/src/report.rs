//! The diagnostics of cleaning, as lines of text that name the file.
use vstd::prelude::*;
use vstd::string::StringExecFns;
use crate::dynamic::Change;
use crate::text::{hex_literal, push_hex};

verus! {

/// The line that reports the removal of an entry called `name` from the file
/// at `path`.
pub open spec fn removal_message_spec(name: Seq<char>, path: Seq<char>) -> Seq<char> {
    "Removing dynamic section entry "@ + name + " in '"@ + path + "'"@
}

/// The line that reports that the extra flags of the file at `path` went from
/// `before` to `after`.
pub open spec fn flags_message_spec(before: u64, after: u64, path: Seq<char>) -> Seq<char> {
    "Replacing unsupported DT_FLAGS_1 "@ + hex_literal(before as nat) + " with "@ + hex_literal(
        after as nat,
    ) + " in '"@ + path + "'"@
}

/// The line that reports the removal of an entry called `name` from the file
/// at `path`.
pub fn removal_message(name: &str, path: &str) -> (line: String)
    ensures
        line@ == removal_message_spec(name@, path@),
{
    let mut line = String::from_str("Removing dynamic section entry ");
    line.append(name);
    line.append(" in '");
    line.append(path);
    line.append("'");
    line
}

/// The line that reports that the extra flags of the file at `path` went from
/// `before` to `after`.
pub fn flags_message(before: u64, after: u64, path: &str) -> (line: String)
    ensures
        line@ == flags_message_spec(before, after, path@),
{
    let mut line = String::from_str("Replacing unsupported DT_FLAGS_1 ");
    push_hex(&mut line, before);
    line.append(" with ");
    push_hex(&mut line, after);
    line.append(" in '");
    line.append(path);
    line.append("'");
    line
}

impl Change {
    /// The diagnostic line of this change for the file at `path`.
    pub open spec fn spec_message(self, path: Seq<char>) -> Seq<char> {
        match self {
            Change::Removed { tag } => removal_message_spec(tag.spec_name(), path),
            Change::FlagsReplaced { before, after } => flags_message_spec(before, after, path),
        }
    }

    /// The diagnostic line of this change for the file at `path`.
    pub fn message(&self, path: &str) -> (line: String)
        ensures
            line@ == self.spec_message(path@),
    {
        match self {
            Change::Removed { tag } => removal_message(tag.name(), path),
            Change::FlagsReplaced { before, after } => flags_message(*before, *after, path),
        }
    }
}

} // verus!
