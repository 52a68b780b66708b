use crate::layout::StringField;
use vstd::prelude::*;

verus! {

/// Why an options block could not be read or an option value was refused.
#[derive(Debug)]
pub enum OptionsError {
    /// The relation is not an index.
    InvalidRelationKind,
    /// A stored block is shorter than the fixed header.
    TruncatedBlock,
    /// The field's offset does not address a NUL-terminated span inside the block.
    InvalidOffset(StringField),
    /// The field's stored bytes are not valid UTF-8.
    InvalidEncoding(StringField),
    /// A server URL does not end with a forward slash.
    MissingTrailingSlash,
    /// A server URL does not parse as an absolute URL; holds the parser's message.
    MalformedUrl(String),
}

} // verus!
