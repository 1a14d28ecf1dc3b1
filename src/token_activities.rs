use crate::error::{field_failure, IndexError};
use crate::fields::{amount_at, amount_of, field_error, text_at, text_of, FieldKind};
use crate::json::{path_view, Json};
use crate::token_utils::{p1, p2, path1, path2, unless_ok};
use crate::util::{decimal_of, hash_str, name_hash, u64_to_bigdecimal};
use bigdecimal::BigDecimal;
use chrono::NaiveDateTime;
use vstd::prelude::*;

verus! {

/// The canonical kinds of token activity.
#[derive(Clone, Copy, Debug, PartialEq, Eq, Structural)]
pub enum TokenActivityType {
    Mint,
    Claim,
    Offer,
    Transfer,
    CancelOffer,
    List,
    Buy,
}

/// The stored name of each activity kind.
pub open spec fn activity_name(t: TokenActivityType) -> Seq<char> {
    match t {
        TokenActivityType::Mint => "mint"@,
        TokenActivityType::Claim => "claim"@,
        TokenActivityType::Offer => "offer"@,
        TokenActivityType::Transfer => "transfer"@,
        TokenActivityType::CancelOffer => "cancel_offer"@,
        TokenActivityType::List => "list"@,
        TokenActivityType::Buy => "buy"@,
    }
}

impl TokenActivityType {
    pub fn as_str(&self) -> (r: &'static str)
        ensures
            r@ == activity_name(*self),
    {
        match self {
            TokenActivityType::Mint => "mint",
            TokenActivityType::Offer => "offer",
            TokenActivityType::CancelOffer => "cancel_offer",
            TokenActivityType::Claim => "claim",
            TokenActivityType::Transfer => "transfer",
            TokenActivityType::List => "list",
            TokenActivityType::Buy => "buy",
        }
    }
}

/// A ledger event with its tagged payload.
#[derive(Debug)]
pub struct Event {
    pub typ: String,
    pub key: String,
    pub sequence_number: i64,
    /// The account whose event stream holds the event.
    pub account_address: String,
    pub data: Json,
}

/// What happened to a token, at one transaction version.
#[derive(Debug)]
pub struct TokenActivity {
    pub creator_address: String,
    pub collection_name_hash: String,
    pub name_hash: String,
    pub property_version: BigDecimal,
    pub event_key: String,
    pub event_sequence_number: i64,
    pub collection_name: String,
    pub name: String,
    pub transaction_version: i64,
    pub transfer_type: String,
    pub from_address: Option<String>,
    pub to_address: Option<String>,
    pub amount: BigDecimal,
    pub inserted_at: NaiveDateTime,
}

pub open spec fn mint_tag() -> Seq<char> {
    "0x3::token::MintTokenEvent"@
}

pub open spec fn withdraw_tag() -> Seq<char> {
    "0x3::token::WithdrawEvent"@
}

pub open spec fn deposit_tag() -> Seq<char> {
    "0x3::token::DepositEvent"@
}

pub open spec fn offer_tag() -> Seq<char> {
    "0x3::token_transfers::TokenOfferEvent"@
}

pub open spec fn cancel_offer_tag() -> Seq<char> {
    "0x3::token_transfers::TokenCancelOfferEvent"@
}

pub open spec fn claim_tag() -> Seq<char> {
    "0x3::token_transfers::TokenClaimEvent"@
}

/// The activity kind of an event type; none for events of no token activity.
/// Listings and sales are made by marketplace contracts, whose events are
/// not among these.
pub open spec fn event_kind(tag: Seq<char>) -> Option<TokenActivityType> {
    if tag == mint_tag() {
        Some(TokenActivityType::Mint)
    } else if tag == withdraw_tag() || tag == deposit_tag() {
        Some(TokenActivityType::Transfer)
    } else if tag == offer_tag() {
        Some(TokenActivityType::Offer)
    } else if tag == cancel_offer_tag() {
        Some(TokenActivityType::CancelOffer)
    } else if tag == claim_tag() {
        Some(TokenActivityType::Claim)
    } else {
        None
    }
}

/// Where the token data id sits in the payload of an event of type `tag`.
pub open spec fn id_prefix(tag: Seq<char>) -> Seq<Seq<char>> {
    if tag == mint_tag() {
        seq!["id"@]
    } else if tag == withdraw_tag() || tag == deposit_tag() {
        seq!["id"@, "token_data_id"@]
    } else {
        seq!["token_id"@, "token_data_id"@]
    }
}

/// Where the property version sits; a mint has none and stands for version 0.
pub open spec fn version_path(tag: Seq<char>) -> Option<Seq<Seq<char>>> {
    if tag == mint_tag() {
        None
    } else if tag == withdraw_tag() || tag == deposit_tag() {
        Some(p2("id", "property_version"))
    } else {
        Some(p2("token_id", "property_version"))
    }
}

/// Events of a transfer between two parties name the receiver in `to_address`.
pub open spec fn names_recipient(tag: Seq<char>) -> bool {
    tag == offer_tag() || tag == cancel_offer_tag() || tag == claim_tag()
}

/// The first field of an event payload, in reading order, that cannot be read.
pub open spec fn activity_gap(tag: Seq<char>, j: Json) -> Option<Seq<Seq<char>>> {
    let tail = unless_ok(j, p1("amount"), FieldKind::Amount, None);
    let tail = if names_recipient(tag) {
        unless_ok(j, p1("to_address"), FieldKind::Text, tail)
    } else {
        tail
    };
    let tail = match version_path(tag) {
        Some(p) => unless_ok(j, p, FieldKind::Amount, tail),
        None => tail,
    };
    unless_ok(j, id_prefix(tag).push("creator"@), FieldKind::Text,
    unless_ok(j, id_prefix(tag).push("collection"@), FieldKind::Text,
    unless_ok(j, id_prefix(tag).push("name"@), FieldKind::Text,
    tail)))
}

/// `t` is the activity of kind `k` that event `ev` at `version` records.
pub open spec fn activity_record(
    t: TokenActivity,
    ev: Event,
    k: TokenActivityType,
    version: i64,
    inserted_at: NaiveDateTime,
) -> bool {
    let tag = ev.typ@;
    let j = ev.data;
    let collection = text_of(j, id_prefix(tag).push("collection"@));
    let name = text_of(j, id_prefix(tag).push("name"@));
    &&& t.creator_address == text_of(j, id_prefix(tag).push("creator"@))
    &&& t.collection_name_hash@ == name_hash(collection@)
    &&& t.name_hash@ == name_hash(name@)
    &&& t.property_version == match version_path(tag) {
        Some(p) => amount_of(j, p),
        None => decimal_of(0),
    }
    &&& t.event_key == ev.key
    &&& t.event_sequence_number == ev.sequence_number
    &&& t.collection_name == collection
    &&& t.name == name
    &&& t.transaction_version == version
    &&& t.transfer_type@ == activity_name(k)
    &&& t.from_address == if tag == deposit_tag() {
        None
    } else {
        Some(ev.account_address)
    }
    &&& t.to_address == if tag == deposit_tag() {
        Some(ev.account_address)
    } else if names_recipient(tag) {
        Some(text_of(j, p1("to_address")))
    } else {
        None
    }
    &&& t.amount == amount_of(j, p1("amount"))
    &&& t.inserted_at == inserted_at
}

/// `prefix` followed by `name`.
fn extended(prefix: &Vec<&'static str>, name: &'static str) -> (r: Vec<&'static str>)
    ensures
        path_view(r@) == path_view(prefix@).push(name@),
{
    let mut r = prefix.clone();
    r.push(name);
    proof {
        assert(path_view(r@) =~= path_view(prefix@).push(name@));
    }
    r
}

impl TokenActivity {
    /// Builds the activity record of a ledger event. An event of no token
    /// activity gives no record; one whose payload lacks a readable field, an
    /// error naming the first such field.
    pub fn from_event(event: Event, txn_version: i64, inserted_at: NaiveDateTime) -> (r: Result<
        Option<TokenActivity>,
        IndexError,
    >)
        ensures
            event_kind(event.typ@) is None ==> r matches Ok(None),
            event_kind(event.typ@) matches Some(k) ==> match activity_gap(event.typ@, event.data) {
                Some(p) => r matches Err(e) && field_failure(e, txn_version, event.data, p),
                None => r matches Ok(Some(t)) && activity_record(t, event, k, txn_version, inserted_at),
            },
    {
        let Event { typ, key, sequence_number, account_address, data } = event;
        let is_mint = typ == String::from_str("0x3::token::MintTokenEvent");
        let is_withdraw = typ == String::from_str("0x3::token::WithdrawEvent");
        let is_deposit = typ == String::from_str("0x3::token::DepositEvent");
        let is_offer = typ == String::from_str("0x3::token_transfers::TokenOfferEvent");
        let is_cancel = typ == String::from_str("0x3::token_transfers::TokenCancelOfferEvent");
        let is_claim = typ == String::from_str("0x3::token_transfers::TokenClaimEvent");
        let kind = if is_mint {
            TokenActivityType::Mint
        } else if is_withdraw || is_deposit {
            TokenActivityType::Transfer
        } else if is_offer {
            TokenActivityType::Offer
        } else if is_cancel {
            TokenActivityType::CancelOffer
        } else if is_claim {
            TokenActivityType::Claim
        } else {
            return Ok(None);
        };
        let prefix: Vec<&'static str> = if is_mint {
            vec!["id"]
        } else if is_withdraw || is_deposit {
            vec!["id", "token_data_id"]
        } else {
            vec!["token_id", "token_data_id"]
        };
        proof {
            assert(path_view(prefix@) =~= id_prefix(typ@));
        }
        let p = extended(&prefix, "creator");
        let creator = match text_at(&data, &p) {
            Some(x) => x,
            None => return Err(field_error(data, &p, txn_version)),
        };
        let p = extended(&prefix, "collection");
        let collection = match text_at(&data, &p) {
            Some(x) => x,
            None => return Err(field_error(data, &p, txn_version)),
        };
        let p = extended(&prefix, "name");
        let name = match text_at(&data, &p) {
            Some(x) => x,
            None => return Err(field_error(data, &p, txn_version)),
        };
        let property_version = if is_mint {
            u64_to_bigdecimal(0)
        } else {
            let p = if is_withdraw || is_deposit {
                path2("id", "property_version")
            } else {
                path2("token_id", "property_version")
            };
            match amount_at(&data, &p) {
                Some(x) => x,
                None => return Err(field_error(data, &p, txn_version)),
            }
        };
        let recipient = if is_offer || is_cancel || is_claim {
            let p = path1("to_address");
            match text_at(&data, &p) {
                Some(x) => Some(x),
                None => return Err(field_error(data, &p, txn_version)),
            }
        } else {
            None
        };
        let p = path1("amount");
        let amount = match amount_at(&data, &p) {
            Some(x) => x,
            None => return Err(field_error(data, &p, txn_version)),
        };
        let collection_name_hash = hash_str(collection.as_str());
        let name_hash = hash_str(name.as_str());
        let (from_address, to_address) = if is_deposit {
            (None, Some(account_address))
        } else {
            (Some(account_address.clone()), recipient)
        };
        let transfer_type = String::from_str(kind.as_str());
        Ok(
            Some(
                TokenActivity {
                    creator_address: creator,
                    collection_name_hash,
                    name_hash,
                    property_version,
                    event_key: key,
                    event_sequence_number: sequence_number,
                    collection_name: collection,
                    name,
                    transaction_version: txn_version,
                    transfer_type,
                    from_address,
                    to_address,
                    amount,
                    inserted_at,
                },
            ),
        )
    }
}

} // verus!
