use crate::error::{field_failure, IndexError};
use crate::json::{dotted, field, Json};
use crate::token_utils::{
    decode_token_data, decode_token_data_id, p1, token_data_gap, token_data_id_gap, token_data_id_of,
    token_data_id_tag, token_data_of, token_data_tag, TokenDataIdType, TokenDataType,
    WriteTableItem,
};
use crate::util::{hash_str, name_hash};
use bigdecimal::BigDecimal;
use chrono::NaiveDateTime;
use vstd::prelude::*;

verus! {

/// A token's data as it stood at one transaction version.
#[derive(Debug)]
pub struct TokenData {
    pub creator_address: String,
    pub collection_name_hash: String,
    pub name_hash: String,
    pub collection_name: String,
    pub name: String,
    pub transaction_version: i64,
    pub maximum: BigDecimal,
    pub supply: BigDecimal,
    pub largest_property_version: BigDecimal,
    pub metadata_uri: String,
    pub payee_address: String,
    pub royalty_points_numerator: BigDecimal,
    pub royalty_points_denominator: BigDecimal,
    pub maximum_mutable: bool,
    pub uri_mutable: bool,
    pub description_mutable: bool,
    pub properties_mutable: bool,
    pub royalty_mutable: bool,
    pub default_properties: Json,
    pub inserted_at: NaiveDateTime,
}

/// `t` is the record of token data `d` with id `id` at `version`.
pub open spec fn token_data_record(
    t: TokenData,
    id: TokenDataIdType,
    d: TokenDataType,
    version: i64,
    inserted_at: NaiveDateTime,
) -> bool {
    &&& t.creator_address == id.creator
    &&& t.collection_name_hash@ == name_hash(id.collection@)
    &&& t.name_hash@ == name_hash(id.name@)
    &&& t.collection_name == id.collection
    &&& t.name == id.name
    &&& t.transaction_version == version
    &&& t.maximum == d.maximum
    &&& t.supply == d.supply
    &&& t.largest_property_version == d.largest_property_version
    &&& t.metadata_uri == d.uri
    &&& t.payee_address == d.royalty.payee_address
    &&& t.royalty_points_numerator == d.royalty.royalty_points_numerator
    &&& t.royalty_points_denominator == d.royalty.royalty_points_denominator
    &&& t.maximum_mutable == d.mutability_config.maximum
    &&& t.uri_mutable == d.mutability_config.uri
    &&& t.description_mutable == d.mutability_config.description
    &&& t.properties_mutable == d.mutability_config.properties
    &&& t.royalty_mutable == d.mutability_config.royalty
    &&& t.default_properties == d.default_properties
    &&& t.inserted_at == inserted_at
}

/// `e` reports at `version` that a token data value came with a key of
/// type `key_type` that is not a token data id.
pub open spec fn key_not_token_data_id(e: IndexError, version: i64, key_type: String, key: Json) -> bool {
    e matches IndexError::MissingTokenDataId { version: v, key_type: kt, key: k } && v == version
        && kt == key_type && k == key
}

/// `t` is what a well-formed token data write `item` at `version` gives.
pub open spec fn token_data_built(
    item: WriteTableItem,
    version: i64,
    inserted_at: NaiveDateTime,
    t: TokenData,
) -> bool {
    &&& item.value_type@ == token_data_tag()
    &&& token_data_gap(item.value) is None
    &&& item.key_type@ == token_data_id_tag()
    &&& token_data_id_gap(item.key) is None
    &&& token_data_record(
        t,
        token_data_id_of(item.key),
        token_data_of(item.value),
        version,
        inserted_at,
    )
}

/// What building a token data record from `table_item` at `txn_version`
/// gives: no record for a write of another type; else the first unreadable
/// field of the value, a key that is not a token data id, the first
/// unreadable field of the key, or the record.
pub open spec fn token_data_outcome(
    table_item: WriteTableItem,
    txn_version: i64,
    inserted_at: NaiveDateTime,
    r: Result<Option<TokenData>, IndexError>,
) -> bool {
    if table_item.value_type@ != token_data_tag() {
        r matches Ok(None)
    } else {
        match token_data_gap(table_item.value) {
            Some(p) => r matches Err(e) && field_failure(e, txn_version, table_item.value, p),
            None => if table_item.key_type@ != token_data_id_tag() {
                r matches Err(e) && key_not_token_data_id(
                    e,
                    txn_version,
                    table_item.key_type,
                    table_item.key,
                )
            } else {
                match token_data_id_gap(table_item.key) {
                    Some(p) => r matches Err(e) && field_failure(e, txn_version, table_item.key, p),
                    None => r matches Ok(Some(t)) && token_data_record(
                        t,
                        token_data_id_of(table_item.key),
                        token_data_of(table_item.value),
                        txn_version,
                        inserted_at,
                    ),
                }
            },
        }
    }
}

impl TokenData {
    /// Builds the token data record of a table write. A write of another
    /// type gives no record. A token data value with an unreadable field, or
    /// whose key is not a readable token data id, is an error.
    pub fn from_write_table_item(
        table_item: WriteTableItem,
        txn_version: i64,
        inserted_at: NaiveDateTime,
    ) -> (r: Result<Option<TokenData>, IndexError>)
        ensures
            token_data_outcome(table_item, txn_version, inserted_at, r),
            r matches Ok(Some(t)) ==> token_data_built(table_item, txn_version, inserted_at, t),
    {
        let WriteTableItem { handle: _, key_type, key, value_type, value } = table_item;
        if !(value_type == String::from_str("0x3::token::TokenData")) {
            return Ok(None);
        }
        let token_data = match decode_token_data(value, txn_version) {
            Ok(d) => d,
            Err(e) => return Err(e),
        };
        if !(key_type == String::from_str("0x3::token::TokenDataId")) {
            return Err(IndexError::MissingTokenDataId { version: txn_version, key_type, key });
        }
        let token_data_id = match decode_token_data_id(key, txn_version) {
            Ok(d) => d,
            Err(e) => return Err(e),
        };
        let collection_name_hash = hash_str(token_data_id.collection.as_str());
        let name_hash = hash_str(token_data_id.name.as_str());
        Ok(
            Some(
                TokenData {
                    creator_address: token_data_id.creator,
                    collection_name_hash,
                    name_hash,
                    collection_name: token_data_id.collection,
                    name: token_data_id.name,
                    transaction_version: txn_version,
                    maximum: token_data.maximum,
                    supply: token_data.supply,
                    largest_property_version: token_data.largest_property_version,
                    metadata_uri: token_data.uri,
                    payee_address: token_data.royalty.payee_address,
                    royalty_points_numerator: token_data.royalty.royalty_points_numerator,
                    royalty_points_denominator: token_data.royalty.royalty_points_denominator,
                    maximum_mutable: token_data.mutability_config.maximum,
                    uri_mutable: token_data.mutability_config.uri,
                    description_mutable: token_data.mutability_config.description,
                    properties_mutable: token_data.mutability_config.properties,
                    royalty_mutable: token_data.mutability_config.royalty,
                    default_properties: token_data.default_properties,
                    inserted_at,
                },
            ),
        )
    }
}

/// A token data write whose value has no `maximum` fails, and the error
/// names the version and the path `maximum`.
pub proof fn lemma_missing_maximum(
    item: WriteTableItem,
    version: i64,
    inserted_at: NaiveDateTime,
    r: Result<Option<TokenData>, IndexError>,
)
    requires
        token_data_outcome(item, version, inserted_at, r),
        item.value_type@ == token_data_tag(),
        field(item.value, "maximum"@) is None,
    ensures
        r matches Err(IndexError::MissingField { version: v, path: p }) && v == version && p@
            == "maximum"@,
{
    assert(dotted(p1("maximum")) == "maximum"@);
}

/// Two writes of one token's data, under the same token data id, at
/// different versions, give records with the same identity (creator,
/// collection name hash and name hash) that differ in their version: two
/// snapshots, neither replacing the other.
pub proof fn lemma_token_data_snapshots(
    a: WriteTableItem,
    b: WriteTableItem,
    version_a: i64,
    version_b: i64,
    inserted_at: NaiveDateTime,
    ra: TokenData,
    rb: TokenData,
)
    requires
        token_data_built(a, version_a, inserted_at, ra),
        token_data_built(b, version_b, inserted_at, rb),
        token_data_id_of(a.key).creator@ == token_data_id_of(b.key).creator@,
        token_data_id_of(a.key).collection@ == token_data_id_of(b.key).collection@,
        token_data_id_of(a.key).name@ == token_data_id_of(b.key).name@,
        version_a != version_b,
    ensures
        ra.creator_address@ == rb.creator_address@,
        ra.collection_name_hash@ == rb.collection_name_hash@,
        ra.name_hash@ == rb.name_hash@,
        ra.transaction_version == version_a,
        rb.transaction_version == version_b,
        ra.transaction_version != rb.transaction_version,
{
}

} // verus!
