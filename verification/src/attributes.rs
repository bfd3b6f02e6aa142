//! The attribute store: a ship's custom fields, filed in the contract's
//! instance storage under the attribute's name and the token's identifier.
//!
//! A record is written whole and read whole. Writing over a record replaces
//! it; nothing ever deletes one.

use vstd::prelude::*;
use soroban_sdk::Env;
use crate::host::{
    is_symbol, ledger, load_number, load_text, store_number, store_text, text_of, HostValue,
    Ledger, RecordKey,
};

verus! {

/// The attributes a ship has.
#[derive(Clone, Copy, Debug, PartialEq, Eq, Structural)]
pub enum AttributeKey {
    Class,
    Rarity,
    Tier,
    Attack,
    Speed,
    Shield,
    IpfsCid,
    MetadataUri,
}

impl AttributeKey {
    /// The symbol under which the attribute is filed.
    pub open spec fn name(self) -> Seq<char> {
        match self {
            AttributeKey::Class => "CLASS"@,
            AttributeKey::Rarity => "RARITY"@,
            AttributeKey::Tier => "TIER"@,
            AttributeKey::Attack => "ATTACK"@,
            AttributeKey::Speed => "SPEED"@,
            AttributeKey::Shield => "SHIELD"@,
            AttributeKey::IpfsCid => "IPFS_CID"@,
            AttributeKey::MetadataUri => "METADATA_URI"@,
        }
    }

    /// Whether the attribute is a number; the others are byte strings.
    pub open spec fn is_number(self) -> bool {
        self == AttributeKey::Attack || self == AttributeKey::Speed || self == AttributeKey::Shield
    }

    /// The slot of this attribute for the token `token_id`.
    pub open spec fn slot(self, token_id: u128) -> RecordKey {
        (self.name(), token_id)
    }

    /// The symbol under which the attribute is filed.
    pub fn symbol(self) -> (name: &'static str)
        ensures
            name@ == self.name(),
            is_symbol(name@),
    {
        proof {
            lemma_names_are_symbols(self);
        }
        match self {
            AttributeKey::Class => "CLASS",
            AttributeKey::Rarity => "RARITY",
            AttributeKey::Tier => "TIER",
            AttributeKey::Attack => "ATTACK",
            AttributeKey::Speed => "SPEED",
            AttributeKey::Shield => "SHIELD",
            AttributeKey::IpfsCid => "IPFS_CID",
            AttributeKey::MetadataUri => "METADATA_URI",
        }
    }
}

/// Every attribute's name is the text of a symbol.
pub proof fn lemma_names_are_symbols(key: AttributeKey)
    ensures
        is_symbol(key.name()),
{
    reveal_strlit("CLASS");
    reveal_strlit("RARITY");
    reveal_strlit("TIER");
    reveal_strlit("ATTACK");
    reveal_strlit("SPEED");
    reveal_strlit("SHIELD");
    reveal_strlit("IPFS_CID");
    reveal_strlit("METADATA_URI");
}

/// No two attributes share a name.
pub proof fn lemma_names_differ(a: AttributeKey, b: AttributeKey)
    ensures
        a.name() == b.name() <==> a == b,
{
    reveal_strlit("CLASS");
    reveal_strlit("RARITY");
    reveal_strlit("TIER");
    reveal_strlit("ATTACK");
    reveal_strlit("SPEED");
    reveal_strlit("SHIELD");
    reveal_strlit("IPFS_CID");
    reveal_strlit("METADATA_URI");
    assert(a.name().len() == b.name().len() && a.name()[0] == b.name()[0] ==> a == b);
}

impl Ledger {
    /// What the slot `key` holds, if anything.
    pub open spec fn record(self, key: RecordKey) -> Option<HostValue> {
        if self.records.contains_key(key) {
            Some(self.records[key])
        } else {
            None
        }
    }

    /// This ledger with `value` in the slot `key`.
    pub open spec fn with_record(self, key: RecordKey, value: HostValue) -> Ledger {
        Ledger { records: self.records.insert(key, value), ..self }
    }
}

/// A string read from the store, in the form the ledger keeps it.
pub open spec fn stored_text(found: Option<soroban_sdk::String>) -> Option<HostValue> {
    match found {
        Some(s) => Some(HostValue::Text(text_of(s))),
        None => None,
    }
}

/// A number read from the store, in the form the ledger keeps it.
pub open spec fn stored_number(found: Option<u32>) -> Option<HostValue> {
    match found {
        Some(n) => Some(HostValue::U32(n)),
        None => None,
    }
}

/// Files the string `value` as attribute `key` of token `token_id`,
/// replacing what the slot held.
pub fn set_text(e: &mut Env, key: AttributeKey, token_id: u128, value: &soroban_sdk::String)
    requires
        ledger(*old(e)).running,
        ledger(*old(e)).holds_string(*value),
    ensures
        ledger(*final(e)) == ledger(*old(e)).with_record(
            key.slot(token_id),
            HostValue::Text(text_of(*value)),
        ),
{
    store_text(e, key.symbol(), token_id, value);
}

/// Files the number `value` as attribute `key` of token `token_id`,
/// replacing what the slot held.
pub fn set_number(e: &mut Env, key: AttributeKey, token_id: u128, value: u32)
    requires
        ledger(*old(e)).running,
    ensures
        ledger(*final(e)) == ledger(*old(e)).with_record(
            key.slot(token_id),
            HostValue::U32(value),
        ),
{
    store_number(e, key.symbol(), token_id, value);
}

/// The string filed as attribute `key` of token `token_id`, or `None` where
/// nothing is filed there. The slot must not hold a value of another kind.
pub fn get_text(e: &Env, key: AttributeKey, token_id: u128) -> (found: Option<soroban_sdk::String>)
    requires
        ledger(*e).running,
        ledger(*e).text_slot(key.slot(token_id)),
    ensures
        stored_text(found) == ledger(*e).record(key.slot(token_id)),
        found matches Some(s) ==> ledger(*e).holds_string(s),
{
    load_text(e, key.symbol(), token_id)
}

/// The number filed as attribute `key` of token `token_id`, or `None` where
/// nothing is filed there. The slot must not hold a value of another kind.
pub fn get_number(e: &Env, key: AttributeKey, token_id: u128) -> (found: Option<u32>)
    requires
        ledger(*e).running,
        ledger(*e).number_slot(key.slot(token_id)),
    ensures
        stored_number(found) == ledger(*e).record(key.slot(token_id)),
{
    load_number(e, key.symbol(), token_id)
}

} // verus!
