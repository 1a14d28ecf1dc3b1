use crate::error::{field_failure, IndexError};
use crate::token_utils::{
    collection_data_gap, collection_data_of, collection_data_tag, decode_collection_data,
    CollectionDataType, WriteTableItem,
};
use crate::tokens::{owner_missing, resolve_owner, standardized, TableHandleToOwner};
use crate::util::{hash_str, name_hash};
use bigdecimal::BigDecimal;
use chrono::NaiveDateTime;
use vstd::prelude::*;

verus! {

/// A collection as it stood at one transaction version.
#[derive(Debug)]
pub struct CollectionData {
    pub creator_address: String,
    pub collection_name_hash: String,
    pub collection_name: String,
    pub description: String,
    pub transaction_version: i64,
    pub metadata_uri: String,
    pub supply: BigDecimal,
    pub maximum: BigDecimal,
    pub maximum_mutable: bool,
    pub uri_mutable: bool,
    pub description_mutable: bool,
    pub inserted_at: NaiveDateTime,
}

/// `c` is the record of collection `d`, owned by `owner`, at `version`.
pub open spec fn collection_record(
    c: CollectionData,
    d: CollectionDataType,
    owner: String,
    version: i64,
    inserted_at: NaiveDateTime,
) -> bool {
    &&& c.creator_address == owner
    &&& c.collection_name_hash@ == name_hash(d.name@)
    &&& c.collection_name == d.name
    &&& c.description == d.description
    &&& c.transaction_version == version
    &&& c.metadata_uri == d.uri
    &&& c.supply == d.supply
    &&& c.maximum == d.maximum
    &&& c.maximum_mutable == d.mutability_config.maximum
    &&& c.uri_mutable == d.mutability_config.uri
    &&& c.description_mutable == d.mutability_config.description
    &&& c.inserted_at == inserted_at
}

/// `c` is what a well-formed collection write `item` at `version` gives.
pub open spec fn collection_built(
    item: WriteTableItem,
    version: i64,
    owners: TableHandleToOwner,
    inserted_at: NaiveDateTime,
    c: CollectionData,
) -> bool {
    &&& item.value_type@ == collection_data_tag()
    &&& collection_data_gap(item.value) is None
    &&& owners.spec_get(standardized(item.handle@)) matches Some(m) && collection_record(
        c,
        collection_data_of(item.value),
        m.owner_address,
        version,
        inserted_at,
    )
}

impl CollectionData {
    /// Builds the collection record of a table write. A write of another
    /// type gives no record; a collection payload with an unreadable field,
    /// or a table whose owner is not in `table_handle_to_owner`, an error.
    pub fn from_write_table_item(
        table_item: WriteTableItem,
        txn_version: i64,
        table_handle_to_owner: &TableHandleToOwner,
        inserted_at: NaiveDateTime,
    ) -> (r: Result<Option<CollectionData>, IndexError>)
        ensures
            table_item.value_type@ != collection_data_tag() ==> r matches Ok(None),
            table_item.value_type@ == collection_data_tag() ==> match collection_data_gap(
                table_item.value,
            ) {
                Some(p) => r matches Err(e) && field_failure(e, txn_version, table_item.value, p),
                None => match table_handle_to_owner.spec_get(standardized(table_item.handle@)) {
                    None => r matches Err(e) && owner_missing(
                        e,
                        *table_handle_to_owner,
                        table_item.handle@,
                        txn_version,
                    ),
                    Some(m) => r matches Ok(Some(c)) && collection_record(
                        c,
                        collection_data_of(table_item.value),
                        m.owner_address,
                        txn_version,
                        inserted_at,
                    ),
                },
            },
            r matches Ok(Some(c)) ==> collection_built(
                table_item,
                txn_version,
                *table_handle_to_owner,
                inserted_at,
                c,
            ),
    {
        let WriteTableItem { handle, key_type: _, key: _, value_type, value } = table_item;
        if !(value_type == String::from_str("0x3::token::CollectionData")) {
            return Ok(None);
        }
        let collection_data = match decode_collection_data(value, txn_version) {
            Ok(d) => d,
            Err(e) => return Err(e),
        };
        let creator_address = match resolve_owner(
            table_handle_to_owner,
            handle.as_str(),
            txn_version,
        ) {
            Ok(o) => o,
            Err(e) => return Err(e),
        };
        let collection_name_hash = hash_str(collection_data.name.as_str());
        Ok(
            Some(
                CollectionData {
                    creator_address,
                    collection_name_hash,
                    collection_name: collection_data.name,
                    description: collection_data.description,
                    transaction_version: txn_version,
                    metadata_uri: collection_data.uri,
                    supply: collection_data.supply,
                    maximum: collection_data.maximum,
                    maximum_mutable: collection_data.mutability_config.maximum,
                    uri_mutable: collection_data.mutability_config.uri,
                    description_mutable: collection_data.mutability_config.description,
                    inserted_at,
                },
            ),
        )
    }
}

/// Two writes of one collection, from the same table and under the same
/// name, at different versions, give records with the same identity (creator
/// and name hash) that differ in their version: two snapshots, neither
/// replacing the other.
pub proof fn lemma_collection_snapshots(
    a: WriteTableItem,
    b: WriteTableItem,
    version_a: i64,
    version_b: i64,
    owners: TableHandleToOwner,
    inserted_at: NaiveDateTime,
    ra: CollectionData,
    rb: CollectionData,
)
    requires
        collection_built(a, version_a, owners, inserted_at, ra),
        collection_built(b, version_b, owners, inserted_at, rb),
        a.handle@ == b.handle@,
        collection_data_of(a.value).name@ == collection_data_of(b.value).name@,
        version_a != version_b,
    ensures
        ra.creator_address == rb.creator_address,
        ra.collection_name_hash@ == rb.collection_name_hash@,
        ra.transaction_version == version_a,
        rb.transaction_version == version_b,
        ra.transaction_version != rb.transaction_version,
{
}

} // verus!
