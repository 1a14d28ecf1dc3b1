use crate::json::{at_path, dotted, Json};
use vstd::prelude::*;

verus! {

/// Why a record could not be built from a write whose type it targets.
#[derive(Debug)]
pub enum IndexError {
    /// A required field is absent from the payload.
    MissingField { version: i64, path: String },
    /// A required field is present but is not of the expected shape.
    InvalidField { version: i64, path: String, found: Json },
    /// The key of a token data write is not a token data id.
    MissingTokenDataId { version: i64, key_type: String, key: Json },
    /// The table handle has no owner in the supplied map.
    OwnerNotFound {
        version: i64,
        handle: String,
        standardized_handle: String,
        known_handles: Vec<String>,
    },
}

/// `e` reports that the field at `path` of `value` could not be read at
/// `version`: as missing when nothing is there, else with what was found.
pub open spec fn field_failure(e: IndexError, version: i64, value: Json, path: Seq<Seq<char>>) -> bool {
    match at_path(value, path) {
        None => e matches IndexError::MissingField { version: v, path: p } && v == version && p@
            == dotted(path),
        Some(found) => e matches IndexError::InvalidField { version: v, path: p, found: f } && v
            == version && p@ == dotted(path) && f == found,
    }
}

} // verus!
