//! Per-index options of a search-engine backed index access method: the
//! binary layout of the options block, its encoder and decoder, the check
//! applied to server URLs, and the names derived from a relation's identity.

pub mod block;
pub mod error;
pub mod identity;
pub mod laws;
pub mod layout;
pub mod options;
pub mod text;
pub mod url_check;

pub use block::{encode, OptionSet, OptionValue};
pub use error::OptionsError;
pub use identity::ResolvedIdentity;
pub use layout::{OptionName, OptionType, StringField, HEADER_SIZE};
pub use options::{
    DefaultOptions, IndexRelation, ZDBIndexOptions, DEFAULT_BATCH_SIZE,
    DEFAULT_COMPRESSION_LEVEL, DEFAULT_OPTIMIZE_AFTER, DEFAULT_REFRESH_INTERVAL, DEFAULT_REPLICAS,
    DEFAULT_SHARDS, DEFAULT_TYPE_NAME, DEFAULT_URL,
};
pub use url_check::{validate_parsed_url, validate_url};
