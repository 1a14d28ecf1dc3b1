use bigdecimal::BigDecimal;
use chrono::{NaiveDate, NaiveDateTime};
use indexer::collection_datas::CollectionData;
use indexer::error::IndexError;
use indexer::fields::{amount_at, flag_at, text_at};
use indexer::json::{dotted_path, Json};
use indexer::token_activities::{Event, TokenActivity, TokenActivityType};
use indexer::token_datas::TokenData;
use indexer::token_utils::{TokenWriteSet, WriteTableItem};
use indexer::tokens::{resolve_owner, TableHandleToOwner, TableMetadataForToken};
use indexer::util::{hash_str, parse_u64};

fn s(v: &str) -> Json {
    Json::Str(v.to_string())
}

fn obj(members: Vec<(&str, Json)>) -> Json {
    Json::Object(members.into_iter().map(|(k, v)| (k.to_string(), v)).collect())
}

fn at() -> NaiveDateTime {
    NaiveDate::from_ymd_opt(2022, 9, 1).unwrap().and_hms_opt(12, 0, 0).unwrap()
}

fn dec(n: u64) -> BigDecimal {
    BigDecimal::from(n)
}

fn std_handle(tail: &str) -> String {
    format!("0x{:0>64}", tail)
}

fn token_data_value(with_maximum: bool) -> Json {
    let mut members = vec![];
    if with_maximum {
        members.push(("maximum", s("100")));
    }
    members.push(("supply", s("1")));
    members.push(("largest_property_version", s("0")));
    members.push(("uri", s("ipfs://x")));
    members.push((
        "royalty",
        obj(vec![
            ("payee_address", s("0x1")),
            ("royalty_points_numerator", s("5")),
            ("royalty_points_denominator", s("100")),
        ]),
    ));
    members.push((
        "mutability_config",
        obj(vec![
            ("maximum", Json::Bool(false)),
            ("uri", Json::Bool(true)),
            ("description", Json::Bool(false)),
            ("properties", Json::Bool(false)),
            ("royalty", Json::Bool(false)),
        ]),
    ));
    members.push(("default_properties", obj(vec![])));
    obj(members)
}

fn token_data_key() -> Json {
    obj(vec![("creator", s("0x1")), ("collection", s("Foo")), ("name", s("Bar"))])
}

fn token_data_item(value: Json) -> WriteTableItem {
    WriteTableItem {
        handle: "0xAA".to_string(),
        key_type: "0x3::token::TokenDataId".to_string(),
        key: token_data_key(),
        value_type: "0x3::token::TokenData".to_string(),
        value,
    }
}

fn collection_value(name: &str) -> Json {
    obj(vec![
        ("description", s("a collection")),
        ("maximum", s("1000")),
        (
            "mutability_config",
            obj(vec![
                ("description", Json::Bool(true)),
                ("maximum", Json::Bool(false)),
                ("uri", Json::Bool(true)),
            ]),
        ),
        ("name", s(name)),
        ("supply", s("3")),
        ("uri", s("https://example.org/c")),
    ])
}

fn collection_item(handle: &str, name: &str) -> WriteTableItem {
    WriteTableItem {
        handle: handle.to_string(),
        key_type: "0x1::string::String".to_string(),
        key: s(name),
        value_type: "0x3::token::CollectionData".to_string(),
        value: collection_value(name),
    }
}

fn owners_with(handle: &str, owner: &str) -> TableHandleToOwner {
    let mut owners = TableHandleToOwner::new();
    owners.insert(
        handle.to_string(),
        TableMetadataForToken {
            owner_address: owner.to_string(),
            table_type: "0x3::token::Collections".to_string(),
        },
    );
    owners
}

#[test]
fn token_data_scenario() {
    let r = TokenData::from_write_table_item(token_data_item(token_data_value(true)), 42, at());
    let t = r.unwrap().unwrap();
    assert_eq!(t.creator_address, "0x1");
    assert_eq!(t.collection_name_hash, hash_str("Foo"));
    assert_eq!(t.name_hash, hash_str("Bar"));
    assert_eq!(t.collection_name, "Foo");
    assert_eq!(t.name, "Bar");
    assert_eq!(t.maximum, dec(100));
    assert_eq!(t.supply, dec(1));
    assert_eq!(t.largest_property_version, dec(0));
    assert_eq!(t.transaction_version, 42);
    assert_eq!(t.metadata_uri, "ipfs://x");
    assert_eq!(t.payee_address, "0x1");
    assert_eq!(t.royalty_points_numerator, dec(5));
    assert_eq!(t.royalty_points_denominator, dec(100));
    assert!(!t.maximum_mutable);
    assert!(t.uri_mutable);
    assert!(!t.description_mutable);
    assert!(!t.properties_mutable);
    assert!(!t.royalty_mutable);
    assert_eq!(t.default_properties, obj(vec![]));
    assert_eq!(t.inserted_at, at());
}

#[test]
fn token_data_without_maximum_names_the_field() {
    let r = TokenData::from_write_table_item(token_data_item(token_data_value(false)), 7, at());
    match r {
        Err(IndexError::MissingField { version, path }) => {
            assert_eq!(version, 7);
            assert_eq!(path, "maximum");
        }
        other => panic!("unexpected {:?}", other),
    }
}

#[test]
fn token_data_with_mistyped_field_reports_what_was_found() {
    let mut item = token_data_item(token_data_value(true));
    if let Json::Object(members) = &mut item.value {
        for m in members.iter_mut() {
            if m.0 == "royalty" {
                m.1 = obj(vec![("payee_address", Json::Bool(true))]);
            }
        }
    }
    match TokenData::from_write_table_item(item, 9, at()) {
        Err(IndexError::InvalidField { version, path, found }) => {
            assert_eq!(version, 9);
            assert_eq!(path, "royalty.payee_address");
            assert_eq!(found, Json::Bool(true));
        }
        other => panic!("unexpected {:?}", other),
    }
}

#[test]
fn token_data_with_unparsable_amount_is_invalid() {
    let mut item = token_data_item(token_data_value(true));
    if let Json::Object(members) = &mut item.value {
        members[1].1 = s("18446744073709551616");
    }
    match TokenData::from_write_table_item(item, 3, at()) {
        Err(IndexError::InvalidField { path, found, .. }) => {
            assert_eq!(path, "supply");
            assert_eq!(found, s("18446744073709551616"));
        }
        other => panic!("unexpected {:?}", other),
    }
}

#[test]
fn token_data_with_foreign_key_type_fails() {
    let mut item = token_data_item(token_data_value(true));
    item.key_type = "0x1::string::String".to_string();
    match TokenData::from_write_table_item(item, 5, at()) {
        Err(IndexError::MissingTokenDataId { version, key_type, key }) => {
            assert_eq!(version, 5);
            assert_eq!(key_type, "0x1::string::String");
            assert_eq!(key, token_data_key());
        }
        other => panic!("unexpected {:?}", other),
    }
}

#[test]
fn token_data_with_incomplete_key_fails() {
    let mut item = token_data_item(token_data_value(true));
    item.key = obj(vec![("creator", s("0x1")), ("collection", s("Foo"))]);
    match TokenData::from_write_table_item(item, 5, at()) {
        Err(IndexError::MissingField { path, .. }) => assert_eq!(path, "name"),
        other => panic!("unexpected {:?}", other),
    }
}

#[test]
fn token_data_builder_skips_other_types() {
    let r = TokenData::from_write_table_item(collection_item("0xAA", "Foo"), 1, at());
    assert!(matches!(r, Ok(None)));
}

#[test]
fn collection_record_takes_owner_and_name_hash() {
    let owners = owners_with(&std_handle("AA"), "0xcafe");
    let r = CollectionData::from_write_table_item(collection_item("0xAA", "Foo"), 11, &owners, at());
    let c = r.unwrap().unwrap();
    assert_eq!(c.creator_address, "0xcafe");
    assert_eq!(c.collection_name_hash, hash_str("Foo"));
    assert_eq!(c.collection_name, "Foo");
    assert_eq!(c.description, "a collection");
    assert_eq!(c.transaction_version, 11);
    assert_eq!(c.metadata_uri, "https://example.org/c");
    assert_eq!(c.supply, dec(3));
    assert_eq!(c.maximum, dec(1000));
    assert!(!c.maximum_mutable);
    assert!(c.uri_mutable);
    assert!(c.description_mutable);
    assert_eq!(c.inserted_at, at());
}

#[test]
fn collection_builder_skips_other_types() {
    let owners = TableHandleToOwner::new();
    let item = token_data_item(token_data_value(false));
    let r = CollectionData::from_write_table_item(item, 1, &owners, at());
    assert!(matches!(r, Ok(None)));
    let other = WriteTableItem {
        handle: "0xAA".to_string(),
        key_type: "address".to_string(),
        key: s("0x1"),
        value_type: "0x1::coin::CoinStore".to_string(),
        value: Json::Null,
    };
    assert!(matches!(CollectionData::from_write_table_item(other, 1, &owners, at()), Ok(None)));
}

#[test]
fn collection_with_unknown_owner_fails() {
    let owners = owners_with(&std_handle("BB"), "0xcafe");
    let r = CollectionData::from_write_table_item(collection_item("0xAA", "Foo"), 12, &owners, at());
    match r {
        Err(IndexError::OwnerNotFound { version, handle, standardized_handle, known_handles }) => {
            assert_eq!(version, 12);
            assert_eq!(handle, "0xAA");
            assert_eq!(standardized_handle, std_handle("AA"));
            assert_eq!(known_handles, vec![std_handle("BB")]);
        }
        other => panic!("unexpected {:?}", other),
    }
}

#[test]
fn collection_with_missing_field_fails() {
    let mut item = collection_item("0xAA", "Foo");
    item.value = obj(vec![("name", s("Foo"))]);
    let owners = owners_with(&std_handle("AA"), "0xcafe");
    match CollectionData::from_write_table_item(item, 4, &owners, at()) {
        Err(IndexError::MissingField { version, path }) => {
            assert_eq!(version, 4);
            assert_eq!(path, "description");
        }
        other => panic!("unexpected {:?}", other),
    }
}

#[test]
fn snapshots_at_two_versions_share_identity() {
    let owners = owners_with(&std_handle("AA"), "0xcafe");
    let a = CollectionData::from_write_table_item(collection_item("0xAA", "Foo"), 10, &owners, at());
    let b = CollectionData::from_write_table_item(collection_item("0xAA", "Foo"), 20, &owners, at());
    let (a, b) = (a.unwrap().unwrap(), b.unwrap().unwrap());
    assert_eq!(a.creator_address, b.creator_address);
    assert_eq!(a.collection_name_hash, b.collection_name_hash);
    assert_ne!(a.transaction_version, b.transaction_version);
    let x = TokenData::from_write_table_item(token_data_item(token_data_value(true)), 1, at());
    let y = TokenData::from_write_table_item(token_data_item(token_data_value(true)), 2, at());
    let (x, y) = (x.unwrap().unwrap(), y.unwrap().unwrap());
    assert_eq!(x.creator_address, y.creator_address);
    assert_eq!(x.collection_name_hash, y.collection_name_hash);
    assert_eq!(x.name_hash, y.name_hash);
    assert_eq!((x.transaction_version, y.transaction_version), (1, 2));
}

#[test]
fn hash_is_hex_sha256_and_stable() {
    let h = hash_str("abc");
    assert_eq!(h, "ba7816bf8f01cfea414140de5dae2223b00361a396177a9cb410ff61f20015ad");
    assert_eq!(hash_str("abc"), h);
    assert_eq!(hash_str("").len(), 64);
    assert_ne!(hash_str("Foo"), hash_str("Bar"));
}

#[test]
fn standardize_pads_handle() {
    assert_eq!(TableMetadataForToken::standardize_handle("0xAA"), std_handle("AA"));
    assert_eq!(TableMetadataForToken::standardize_handle("0x"), std_handle(""));
    let long = format!("0x{}", "f".repeat(70));
    assert_eq!(TableMetadataForToken::standardize_handle(&long), long);
}

#[test]
fn owner_lookup_uses_latest_entry() {
    let mut owners = owners_with(&std_handle("AA"), "0x1");
    owners.insert(
        std_handle("AA"),
        TableMetadataForToken { owner_address: "0x2".to_string(), table_type: String::new() },
    );
    assert_eq!(resolve_owner(&owners, "0xAA", 1).unwrap(), "0x2");
    assert!(owners.get(&std_handle("CC")).is_none());
    assert!(matches!(resolve_owner(&owners, "0xCC", 1), Err(IndexError::OwnerNotFound { .. })));
}

#[test]
fn parse_u64_bounds() {
    assert_eq!(parse_u64("0"), Some(0));
    assert_eq!(parse_u64("18446744073709551615"), Some(u64::MAX));
    assert_eq!(parse_u64("18446744073709551616"), None);
    assert_eq!(parse_u64(""), None);
    assert_eq!(parse_u64("1a"), None);
    assert_eq!(parse_u64("-1"), None);
}

#[test]
fn registry_decodes_known_tags_only() {
    let r = TokenWriteSet::from_table_item_type("0x3::token::TokenDataId", token_data_key(), 1);
    match r {
        Ok(Some(TokenWriteSet::TokenDataId(id))) => {
            assert_eq!((id.creator.as_str(), id.collection.as_str(), id.name.as_str()), ("0x1", "Foo", "Bar"));
        }
        _ => panic!("expected a token data id"),
    }
    let r = TokenWriteSet::from_table_item_type("0x1::coin::CoinStore", Json::Null, 1);
    assert!(matches!(r, Ok(None)));
    let r = TokenWriteSet::from_table_item_type("0x3::token::CollectionData", Json::Null, 8);
    assert!(matches!(r, Err(IndexError::MissingField { version: 8, .. })));
}

fn token_id() -> Json {
    obj(vec![("token_data_id", token_data_key()), ("property_version", s("2"))])
}

fn event(typ: &str, data: Json) -> Event {
    Event {
        typ: typ.to_string(),
        key: "0x0400000000000000cafe".to_string(),
        sequence_number: 6,
        account_address: "0xcafe".to_string(),
        data,
    }
}

#[test]
fn mint_event_activity() {
    let e = event("0x3::token::MintTokenEvent", obj(vec![("id", token_data_key()), ("amount", s("4"))]));
    let t = TokenActivity::from_event(e, 30, at()).unwrap().unwrap();
    assert_eq!(t.creator_address, "0x1");
    assert_eq!(t.collection_name_hash, hash_str("Foo"));
    assert_eq!(t.name_hash, hash_str("Bar"));
    assert_eq!(t.property_version, dec(0));
    assert_eq!(t.event_key, "0x0400000000000000cafe");
    assert_eq!(t.event_sequence_number, 6);
    assert_eq!(t.transfer_type, "mint");
    assert_eq!(t.from_address.as_deref(), Some("0xcafe"));
    assert_eq!(t.to_address, None);
    assert_eq!(t.amount, dec(4));
    assert_eq!(t.transaction_version, 30);
}

#[test]
fn deposit_and_claim_event_activities() {
    let e = event("0x3::token::DepositEvent", obj(vec![("id", token_id()), ("amount", s("1"))]));
    let t = TokenActivity::from_event(e, 31, at()).unwrap().unwrap();
    assert_eq!(t.transfer_type, "transfer");
    assert_eq!(t.property_version, dec(2));
    assert_eq!(t.from_address, None);
    assert_eq!(t.to_address.as_deref(), Some("0xcafe"));
    let e = event(
        "0x3::token_transfers::TokenClaimEvent",
        obj(vec![("to_address", s("0xbeef")), ("token_id", token_id()), ("amount", s("1"))]),
    );
    let t = TokenActivity::from_event(e, 32, at()).unwrap().unwrap();
    assert_eq!(t.transfer_type, "claim");
    assert_eq!(t.from_address.as_deref(), Some("0xcafe"));
    assert_eq!(t.to_address.as_deref(), Some("0xbeef"));
}

#[test]
fn offer_event_without_recipient_fails_and_others_are_skipped() {
    let e = event("0x3::token_transfers::TokenOfferEvent", obj(vec![("token_id", token_id()), ("amount", s("1"))]));
    match TokenActivity::from_event(e, 33, at()) {
        Err(IndexError::MissingField { version, path }) => {
            assert_eq!(version, 33);
            assert_eq!(path, "to_address");
        }
        other => panic!("unexpected {:?}", other),
    }
    let e = event("0x1::coin::DepositEvent", obj(vec![("amount", s("1"))]));
    assert!(matches!(TokenActivity::from_event(e, 34, at()), Ok(None)));
}

#[test]
fn activity_kind_names() {
    let all = [
        (TokenActivityType::Mint, "mint"),
        (TokenActivityType::Claim, "claim"),
        (TokenActivityType::Offer, "offer"),
        (TokenActivityType::Transfer, "transfer"),
        (TokenActivityType::CancelOffer, "cancel_offer"),
        (TokenActivityType::List, "list"),
        (TokenActivityType::Buy, "buy"),
    ];
    for (kind, name) in all {
        assert_eq!(kind.as_str(), name);
    }
}

#[test]
fn paths_reach_into_objects_and_arrays() {
    let j = obj(vec![(
        "items",
        Json::Array(vec![s("zero"), obj(vec![("name", s("one")), ("n", s("7")), ("on", Json::Bool(true))])]),
    )]);
    assert_eq!(text_at(&j, &vec!["items", "0"]), Some("zero".to_string()));
    assert_eq!(text_at(&j, &vec!["items", "1", "name"]), Some("one".to_string()));
    assert_eq!(amount_at(&j, &vec!["items", "1", "n"]), Some(dec(7)));
    assert_eq!(flag_at(&j, &vec!["items", "1", "on"]), Some(true));
    assert_eq!(text_at(&j, &vec!["items", "2"]), None);
    assert_eq!(text_at(&j, &vec!["items", "x"]), None);
    assert_eq!(flag_at(&j, &vec!["items", "0"]), None);
    assert_eq!(dotted_path(&vec!["items", "1", "name"]), "items.1.name");
    assert_eq!(dotted_path(&vec![]), "");
}
