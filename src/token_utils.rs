use crate::error::{field_failure, IndexError};
use crate::fields::{
    amount_at, amount_of, field_error, field_ok, flag_at, flag_of, text_at, text_of, FieldKind,
};
use crate::json::{field, path_view, Json};
use bigdecimal::BigDecimal;
use vstd::prelude::*;

verus! {

pub struct CollectionDataMutabilityConfigType {
    pub description: bool,
    pub maximum: bool,
    pub uri: bool,
}

pub struct CollectionDataType {
    pub description: String,
    pub maximum: BigDecimal,
    pub mutability_config: CollectionDataMutabilityConfigType,
    pub name: String,
    pub supply: BigDecimal,
    pub uri: String,
}

pub struct TokenDataIdType {
    pub creator: String,
    pub collection: String,
    pub name: String,
}

pub struct RoyaltyType {
    pub payee_address: String,
    pub royalty_points_denominator: BigDecimal,
    pub royalty_points_numerator: BigDecimal,
}

pub struct TokenDataMutabilityConfigType {
    pub description: bool,
    pub maximum: bool,
    pub properties: bool,
    pub royalty: bool,
    pub uri: bool,
}

pub struct TokenDataType {
    pub default_properties: Json,
    pub largest_property_version: BigDecimal,
    pub maximum: BigDecimal,
    pub mutability_config: TokenDataMutabilityConfigType,
    pub royalty: RoyaltyType,
    pub supply: BigDecimal,
    pub uri: String,
}

/// A write to one entry of an on-chain table, with its key and value as
/// tagged payloads.
#[derive(Debug)]
pub struct WriteTableItem {
    pub handle: String,
    pub key_type: String,
    pub key: Json,
    pub value_type: String,
    pub value: Json,
}

/// The on-chain values that the token tables hold, as far as records are
/// built from them.
pub enum TokenWriteSet {
    TokenDataId(TokenDataIdType),
    TokenData(TokenDataType),
    CollectionData(CollectionDataType),
}

pub open spec fn collection_data_tag() -> Seq<char> {
    "0x3::token::CollectionData"@
}

pub open spec fn token_data_tag() -> Seq<char> {
    "0x3::token::TokenData"@
}

pub open spec fn token_data_id_tag() -> Seq<char> {
    "0x3::token::TokenDataId"@
}

/// A path of one field name.
pub open spec fn p1(a: &str) -> Seq<Seq<char>> {
    seq![a@]
}

/// A path into a nested object.
pub open spec fn p2(a: &str, b: &str) -> Seq<Seq<char>> {
    seq![a@, b@]
}

pub(crate) fn path1(a: &'static str) -> (r: Vec<&'static str>)
    ensures
        path_view(r@) == p1(a),
{
    let r = vec![a];
    proof {
        assert(path_view(r@) =~= p1(a));
    }
    r
}

pub(crate) fn path2(a: &'static str, b: &'static str) -> (r: Vec<&'static str>)
    ensures
        path_view(r@) == p2(a, b),
{
    let r = vec![a, b];
    proof {
        assert(path_view(r@) =~= p2(a, b));
    }
    r
}

/// `path` when it cannot be read as `kind`, else `rest`: chained, the first
/// unreadable field of a list.
pub open spec fn unless_ok(
    j: Json,
    path: Seq<Seq<char>>,
    kind: FieldKind,
    rest: Option<Seq<Seq<char>>>,
) -> Option<Seq<Seq<char>>> {
    if !field_ok(j, path, kind) {
        Some(path)
    } else {
        rest
    }
}

/// The first field of a collection payload, in reading order, that cannot
/// be read.
pub open spec fn collection_data_gap(j: Json) -> Option<Seq<Seq<char>>> {
    unless_ok(j, p1("name"), FieldKind::Text,
    unless_ok(j, p1("description"), FieldKind::Text,
    unless_ok(j, p1("uri"), FieldKind::Text,
    unless_ok(j, p1("supply"), FieldKind::Amount,
    unless_ok(j, p1("maximum"), FieldKind::Amount,
    unless_ok(j, p2("mutability_config", "description"), FieldKind::Flag,
    unless_ok(j, p2("mutability_config", "maximum"), FieldKind::Flag,
    unless_ok(j, p2("mutability_config", "uri"), FieldKind::Flag,
    None))))))))
}

/// A collection payload read field by field.
pub open spec fn collection_data_of(j: Json) -> CollectionDataType {
    CollectionDataType {
        description: text_of(j, p1("description")),
        maximum: amount_of(j, p1("maximum")),
        mutability_config: CollectionDataMutabilityConfigType {
            description: flag_of(j, p2("mutability_config", "description")),
            maximum: flag_of(j, p2("mutability_config", "maximum")),
            uri: flag_of(j, p2("mutability_config", "uri")),
        },
        name: text_of(j, p1("name")),
        supply: amount_of(j, p1("supply")),
        uri: text_of(j, p1("uri")),
    }
}

/// The first field of a token data id, in reading order, that cannot be read.
pub open spec fn token_data_id_gap(j: Json) -> Option<Seq<Seq<char>>> {
    unless_ok(j, p1("creator"), FieldKind::Text,
    unless_ok(j, p1("collection"), FieldKind::Text,
    unless_ok(j, p1("name"), FieldKind::Text,
    None)))
}

/// A token data id read field by field.
pub open spec fn token_data_id_of(j: Json) -> TokenDataIdType {
    TokenDataIdType {
        creator: text_of(j, p1("creator")),
        collection: text_of(j, p1("collection")),
        name: text_of(j, p1("name")),
    }
}

/// The first field of a token data payload, in reading order, that cannot
/// be read.
pub open spec fn token_data_gap(j: Json) -> Option<Seq<Seq<char>>> {
    unless_ok(j, p1("maximum"), FieldKind::Amount,
    unless_ok(j, p1("supply"), FieldKind::Amount,
    unless_ok(j, p1("largest_property_version"), FieldKind::Amount,
    unless_ok(j, p1("uri"), FieldKind::Text,
    unless_ok(j, p2("royalty", "payee_address"), FieldKind::Text,
    unless_ok(j, p2("royalty", "royalty_points_numerator"), FieldKind::Amount,
    unless_ok(j, p2("royalty", "royalty_points_denominator"), FieldKind::Amount,
    unless_ok(j, p2("mutability_config", "maximum"), FieldKind::Flag,
    unless_ok(j, p2("mutability_config", "uri"), FieldKind::Flag,
    unless_ok(j, p2("mutability_config", "description"), FieldKind::Flag,
    unless_ok(j, p2("mutability_config", "properties"), FieldKind::Flag,
    unless_ok(j, p2("mutability_config", "royalty"), FieldKind::Flag,
    None))))))))))))
}

/// The free-form default properties of a token data payload, `Null` when
/// it has none.
pub open spec fn default_properties_of(j: Json) -> Json {
    match field(j, "default_properties"@) {
        Some(d) => d,
        None => Json::Null,
    }
}

/// A token data payload read field by field.
pub open spec fn token_data_of(j: Json) -> TokenDataType {
    TokenDataType {
        default_properties: default_properties_of(j),
        largest_property_version: amount_of(j, p1("largest_property_version")),
        maximum: amount_of(j, p1("maximum")),
        mutability_config: TokenDataMutabilityConfigType {
            description: flag_of(j, p2("mutability_config", "description")),
            maximum: flag_of(j, p2("mutability_config", "maximum")),
            properties: flag_of(j, p2("mutability_config", "properties")),
            royalty: flag_of(j, p2("mutability_config", "royalty")),
            uri: flag_of(j, p2("mutability_config", "uri")),
        },
        royalty: RoyaltyType {
            payee_address: text_of(j, p2("royalty", "payee_address")),
            royalty_points_denominator: amount_of(j, p2("royalty", "royalty_points_denominator")),
            royalty_points_numerator: amount_of(j, p2("royalty", "royalty_points_numerator")),
        },
        supply: amount_of(j, p1("supply")),
        uri: text_of(j, p1("uri")),
    }
}

/// The outcome of decoding: the first unreadable field is reported for
/// `version`, else the payload as read.
pub open spec fn decoded_as<T>(
    r: Result<T, IndexError>,
    gap: Option<Seq<Seq<char>>>,
    value: T,
    version: i64,
    j: Json,
) -> bool {
    match gap {
        Some(p) => r matches Err(e) && field_failure(e, version, j, p),
        None => r == Ok::<T, IndexError>(value),
    }
}

/// Reads a collection payload.
pub fn decode_collection_data(data: Json, version: i64) -> (r: Result<CollectionDataType, IndexError>)
    ensures
        decoded_as(r, collection_data_gap(data), collection_data_of(data), version, data),
{
    let p = path1("name");
    let name = match text_at(&data, &p) {
        Some(x) => x,
        None => return Err(field_error(data, &p, version)),
    };
    let p = path1("description");
    let description = match text_at(&data, &p) {
        Some(x) => x,
        None => return Err(field_error(data, &p, version)),
    };
    let p = path1("uri");
    let uri = match text_at(&data, &p) {
        Some(x) => x,
        None => return Err(field_error(data, &p, version)),
    };
    let p = path1("supply");
    let supply = match amount_at(&data, &p) {
        Some(x) => x,
        None => return Err(field_error(data, &p, version)),
    };
    let p = path1("maximum");
    let maximum = match amount_at(&data, &p) {
        Some(x) => x,
        None => return Err(field_error(data, &p, version)),
    };
    let p = path2("mutability_config", "description");
    let m_description = match flag_at(&data, &p) {
        Some(x) => x,
        None => return Err(field_error(data, &p, version)),
    };
    let p = path2("mutability_config", "maximum");
    let m_maximum = match flag_at(&data, &p) {
        Some(x) => x,
        None => return Err(field_error(data, &p, version)),
    };
    let p = path2("mutability_config", "uri");
    let m_uri = match flag_at(&data, &p) {
        Some(x) => x,
        None => return Err(field_error(data, &p, version)),
    };
    Ok(
            CollectionDataType {
                description,
                maximum,
                mutability_config: CollectionDataMutabilityConfigType {
                    description: m_description,
                    maximum: m_maximum,
                    uri: m_uri,
                },
                name,
                supply,
                uri,
            },
        )
}

/// Reads a token data id.
pub fn decode_token_data_id(data: Json, version: i64) -> (r: Result<TokenDataIdType, IndexError>)
    ensures
        decoded_as(r, token_data_id_gap(data), token_data_id_of(data), version, data),
{
    let p = path1("creator");
    let creator = match text_at(&data, &p) {
        Some(x) => x,
        None => return Err(field_error(data, &p, version)),
    };
    let p = path1("collection");
    let collection = match text_at(&data, &p) {
        Some(x) => x,
        None => return Err(field_error(data, &p, version)),
    };
    let p = path1("name");
    let name = match text_at(&data, &p) {
        Some(x) => x,
        None => return Err(field_error(data, &p, version)),
    };
    Ok(TokenDataIdType { creator, collection, name })
}

/// Reads a token data payload; its default properties are kept as they are.
pub fn decode_token_data(data: Json, version: i64) -> (r: Result<TokenDataType, IndexError>)
    ensures
        decoded_as(r, token_data_gap(data), token_data_of(data), version, data),
{
    let p = path1("maximum");
    let maximum = match amount_at(&data, &p) {
        Some(x) => x,
        None => return Err(field_error(data, &p, version)),
    };
    let p = path1("supply");
    let supply = match amount_at(&data, &p) {
        Some(x) => x,
        None => return Err(field_error(data, &p, version)),
    };
    let p = path1("largest_property_version");
    let largest_property_version = match amount_at(&data, &p) {
        Some(x) => x,
        None => return Err(field_error(data, &p, version)),
    };
    let p = path1("uri");
    let uri = match text_at(&data, &p) {
        Some(x) => x,
        None => return Err(field_error(data, &p, version)),
    };
    let p = path2("royalty", "payee_address");
    let payee_address = match text_at(&data, &p) {
        Some(x) => x,
        None => return Err(field_error(data, &p, version)),
    };
    let p = path2("royalty", "royalty_points_numerator");
    let royalty_points_numerator = match amount_at(&data, &p) {
        Some(x) => x,
        None => return Err(field_error(data, &p, version)),
    };
    let p = path2("royalty", "royalty_points_denominator");
    let royalty_points_denominator = match amount_at(&data, &p) {
        Some(x) => x,
        None => return Err(field_error(data, &p, version)),
    };
    let p = path2("mutability_config", "maximum");
    let m_maximum = match flag_at(&data, &p) {
        Some(x) => x,
        None => return Err(field_error(data, &p, version)),
    };
    let p = path2("mutability_config", "uri");
    let m_uri = match flag_at(&data, &p) {
        Some(x) => x,
        None => return Err(field_error(data, &p, version)),
    };
    let p = path2("mutability_config", "description");
    let m_description = match flag_at(&data, &p) {
        Some(x) => x,
        None => return Err(field_error(data, &p, version)),
    };
    let p = path2("mutability_config", "properties");
    let m_properties = match flag_at(&data, &p) {
        Some(x) => x,
        None => return Err(field_error(data, &p, version)),
    };
    let p = path2("mutability_config", "royalty");
    let m_royalty = match flag_at(&data, &p) {
        Some(x) => x,
        None => return Err(field_error(data, &p, version)),
    };
    let default_properties = match data.into_field("default_properties") {
            Some(d) => d,
            None => Json::Null,
    };
    Ok(
            TokenDataType {
                default_properties,
                largest_property_version,
                maximum,
                mutability_config: TokenDataMutabilityConfigType {
                    description: m_description,
                    maximum: m_maximum,
                    properties: m_properties,
                    royalty: m_royalty,
                    uri: m_uri,
                },
                royalty: RoyaltyType {
                    payee_address,
                    royalty_points_denominator,
                    royalty_points_numerator,
                },
                supply,
                uri,
            },
        )
}

/// The first unreadable field of a payload of type `tag`; none for a type
/// that is not recognised.
pub open spec fn decode_gap(tag: Seq<char>, j: Json) -> Option<Seq<Seq<char>>> {
    if tag == collection_data_tag() {
        collection_data_gap(j)
    } else if tag == token_data_tag() {
        token_data_gap(j)
    } else if tag == token_data_id_tag() {
        token_data_id_gap(j)
    } else {
        None
    }
}

/// What a payload of type `tag` decodes to, when every field reads.
pub open spec fn decoded(tag: Seq<char>, j: Json) -> Option<TokenWriteSet> {
    if tag == collection_data_tag() {
        Some(TokenWriteSet::CollectionData(collection_data_of(j)))
    } else if tag == token_data_tag() {
        Some(TokenWriteSet::TokenData(token_data_of(j)))
    } else if tag == token_data_id_tag() {
        Some(TokenWriteSet::TokenDataId(token_data_id_of(j)))
    } else {
        None
    }
}

impl TokenWriteSet {
    /// Decodes `data` as the value of type `data_type`. A type that is not
    /// recognised gives `None`; a recognised one whose payload lacks a
    /// readable field is an error naming the first such field.
    pub fn from_table_item_type(data_type: &str, data: Json, version: i64) -> (r: Result<
        Option<TokenWriteSet>,
        IndexError,
    >)
        ensures
            decoded_as(r, decode_gap(data_type@, data), decoded(data_type@, data), version, data),
    {
        let t = String::from_str(data_type);
        if t == String::from_str("0x3::token::CollectionData") {
            match decode_collection_data(data, version) {
                Ok(c) => Ok(Some(TokenWriteSet::CollectionData(c))),
                Err(e) => Err(e),
            }
        } else if t == String::from_str("0x3::token::TokenData") {
            match decode_token_data(data, version) {
                Ok(d) => Ok(Some(TokenWriteSet::TokenData(d))),
                Err(e) => Err(e),
            }
        } else if t == String::from_str("0x3::token::TokenDataId") {
            match decode_token_data_id(data, version) {
                Ok(d) => Ok(Some(TokenWriteSet::TokenDataId(d))),
                Err(e) => Err(e),
            }
        } else {
            Ok(None)
        }
    }
}

} // verus!
