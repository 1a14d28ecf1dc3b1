use crate::error::{field_failure, IndexError};
use crate::json::{at_path, dotted_path, path_view, Json};
use crate::util::{decimal_of, parse_u64, parsed_u64, u64_to_bigdecimal};
use bigdecimal::BigDecimal;
use vstd::prelude::*;

verus! {

/// How a required field is read.
#[derive(Clone, Copy, Debug, PartialEq, Eq, Structural)]
pub enum FieldKind {
    /// A string, kept as it is.
    Text,
    /// A boolean.
    Flag,
    /// An unsigned 64-bit integer written as a decimal string.
    Amount,
}

/// The field at `path` of `j` can be read as `kind`.
pub open spec fn field_ok(j: Json, path: Seq<Seq<char>>, kind: FieldKind) -> bool {
    match at_path(j, path) {
        Some(Json::Str(s)) => kind == FieldKind::Text || (kind == FieldKind::Amount
            && parsed_u64(s@) is Some),
        Some(Json::Bool(_)) => kind == FieldKind::Flag,
        _ => false,
    }
}

/// The string at `path`.
pub open spec fn text_of(j: Json, path: Seq<Seq<char>>) -> String
    recommends
        field_ok(j, path, FieldKind::Text),
{
    at_path(j, path)->Some_0->Str_0
}

/// The boolean at `path`.
pub open spec fn flag_of(j: Json, path: Seq<Seq<char>>) -> bool
    recommends
        field_ok(j, path, FieldKind::Flag),
{
    at_path(j, path)->Some_0->Bool_0
}

/// The decimal of the numeral at `path`.
pub open spec fn amount_of(j: Json, path: Seq<Seq<char>>) -> BigDecimal
    recommends
        field_ok(j, path, FieldKind::Amount),
{
    decimal_of(parsed_u64(at_path(j, path)->Some_0->Str_0@)->Some_0)
}

/// Reads the string at `path`.
pub fn text_at(j: &Json, path: &Vec<&str>) -> (r: Option<String>)
    ensures
        field_ok(*j, path_view(path@), FieldKind::Text) ==> r == Some(text_of(*j, path_view(path@))),
        !field_ok(*j, path_view(path@), FieldKind::Text) ==> r is None,
{
    match j.get_path(path) {
        Some(Json::Str(s)) => Some(s.clone()),
        _ => None,
    }
}

/// Reads the boolean at `path`.
pub fn flag_at(j: &Json, path: &Vec<&str>) -> (r: Option<bool>)
    ensures
        field_ok(*j, path_view(path@), FieldKind::Flag) ==> r == Some(flag_of(*j, path_view(path@))),
        !field_ok(*j, path_view(path@), FieldKind::Flag) ==> r is None,
{
    match j.get_path(path) {
        Some(Json::Bool(b)) => Some(*b),
        _ => None,
    }
}

/// Reads the decimal numeral at `path` as an arbitrary-precision decimal.
pub fn amount_at(j: &Json, path: &Vec<&str>) -> (r: Option<BigDecimal>)
    ensures
        field_ok(*j, path_view(path@), FieldKind::Amount) ==> r == Some(
            amount_of(*j, path_view(path@)),
        ),
        !field_ok(*j, path_view(path@), FieldKind::Amount) ==> r is None,
{
    match j.get_path(path) {
        Some(Json::Str(s)) => match parse_u64(s.as_str()) {
            Some(n) => Some(u64_to_bigdecimal(n)),
            None => None,
        },
        _ => None,
    }
}

/// The error for a field of `value` at `path` that could not be read: it
/// names the version and the path, and holds what was found there.
pub fn field_error(value: Json, path: &Vec<&str>, version: i64) -> (e: IndexError)
    ensures
        field_failure(e, version, value, path_view(path@)),
{
    let p = dotted_path(path);
    match value.into_path(path) {
        None => IndexError::MissingField { version, path: p },
        Some(found) => IndexError::InvalidField { version, path: p, found },
    }
}

} // verus!
