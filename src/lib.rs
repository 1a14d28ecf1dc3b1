//! Normalises raw token table writes and ledger events into typed,
//! content-addressed records.

pub mod collection_datas;
pub mod error;
pub mod fields;
pub mod json;
pub mod token_activities;
pub mod token_datas;
pub mod token_utils;
pub mod tokens;
pub mod util;
