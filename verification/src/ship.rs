//! The ship collection: tokens minted by the contract's owner, each with
//! eight attributes that are written once, at mint time, and only read
//! afterwards.

use vstd::prelude::*;
use vstd::string::StringSliceAdditionalSpecFns;
use vstd::utf8::is_ascii_chars_encode_utf8;
use soroban_sdk::{Address, Env};
use crate::access::{enforce_owner_auth, owner_admits, set_owner};
use crate::attributes::{
    get_number, get_text, lemma_names_differ, set_number, set_text, stored_number, stored_text,
    AttributeKey,
};
use crate::host::{
    account_of, authorizations, is_symbol, ledger, new_text, publish_number, publish_text,
    text_of, AccountId, CollectionInfo, Event, HostValue, Ledger, RecordKey,
};
use crate::tokens::{can_issue, issue_token, next_id, set_metadata, with_token};

verus! {

/// The ship collection.
pub struct SpaceStellarNFT;

/// The attributes given to a ship at mint time.
pub struct ShipAttributes {
    pub class: Seq<u8>,
    pub rarity: Seq<u8>,
    pub tier: Seq<u8>,
    pub attack: u32,
    pub speed: u32,
    pub shield: u32,
    pub ipfs_cid: Seq<u8>,
    pub metadata_uri: Seq<u8>,
}

impl ShipAttributes {
    /// The attributes that the arguments of a mint carry.
    pub open spec fn given(
        class: soroban_sdk::String,
        rarity: soroban_sdk::String,
        tier: soroban_sdk::String,
        attack: u32,
        speed: u32,
        shield: u32,
        ipfs_cid: soroban_sdk::String,
        metadata_uri: soroban_sdk::String,
    ) -> ShipAttributes {
        ShipAttributes {
            class: text_of(class),
            rarity: text_of(rarity),
            tier: text_of(tier),
            attack,
            speed,
            shield,
            ipfs_cid: text_of(ipfs_cid),
            metadata_uri: text_of(metadata_uri),
        }
    }

    /// The value of the attribute `key`, in the form the ledger keeps it.
    pub open spec fn value(self, key: AttributeKey) -> HostValue {
        match key {
            AttributeKey::Class => HostValue::Text(self.class),
            AttributeKey::Rarity => HostValue::Text(self.rarity),
            AttributeKey::Tier => HostValue::Text(self.tier),
            AttributeKey::Attack => HostValue::U32(self.attack),
            AttributeKey::Speed => HostValue::U32(self.speed),
            AttributeKey::Shield => HostValue::U32(self.shield),
            AttributeKey::IpfsCid => HostValue::Text(self.ipfs_cid),
            AttributeKey::MetadataUri => HostValue::Text(self.metadata_uri),
        }
    }
}

/// Whether an attribute is filed under `name`.
pub open spec fn is_attribute_name(name: Seq<char>) -> bool {
    exists|key: AttributeKey| name == #[trigger] key.name()
}

/// Whether `slot` is one of the eight attribute slots of token `token_id`.
pub open spec fn is_attribute_of(slot: RecordKey, token_id: u128) -> bool {
    slot.1 == token_id && is_attribute_name(slot.0)
}

/// The attribute that is filed under `name`.
pub open spec fn attribute_named(name: Seq<char>) -> AttributeKey {
    choose|key: AttributeKey| name == #[trigger] key.name()
}

/// The records once the attributes `a` are filed for token `token_id`: each
/// of the token's eight slots holds its attribute's value, and every other
/// slot is as before.
pub open spec fn filed(
    records: Map<RecordKey, HostValue>,
    token_id: u128,
    a: ShipAttributes,
) -> Map<RecordKey, HostValue> {
    Map::new(
        |slot: RecordKey| records.contains_key(slot) || is_attribute_of(slot, token_id),
        |slot: RecordKey|
            if is_attribute_of(slot, token_id) {
                a.value(attribute_named(slot.0))
            } else {
                records[slot]
            },
    )
}

/// The event that reports the identifier of a minted ship.
pub open spec fn token_id_event(token_id: u128) -> Event {
    Event {
        topics: seq![HostValue::Symbol("mint"@), HostValue::Symbol("token_id"@)],
        data: HostValue::U128(token_id),
    }
}

/// The event that reports the content identifier of a minted ship.
pub open spec fn ipfs_cid_event(ipfs_cid: Seq<u8>) -> Event {
    Event {
        topics: seq![HostValue::Symbol("mint"@), HostValue::Symbol("ipfs_cid"@)],
        data: HostValue::Text(ipfs_cid),
    }
}

/// Whether the value `v` is of the kind that attribute `key` has.
pub open spec fn is_kind_of(v: HostValue, key: AttributeKey) -> bool {
    if key.is_number() {
        v is U32
    } else {
        v is Text
    }
}

impl SpaceStellarNFT {
    /// The collection's description.
    pub open spec fn info() -> CollectionInfo {
        CollectionInfo {
            base_uri: "https://space-stellar.app".spec_bytes(),
            name: "Space Stellar Ships".spec_bytes(),
            symbol: "SSHIP".spec_bytes(),
        }
    }

    /// The ledger after the contract is set up for `owner`: the collection's
    /// description and the owner are on record, and nothing else has changed.
    pub open spec fn deployed(l: Ledger, owner: AccountId) -> Ledger {
        Ledger { info: Some(Self::info()), owner: Some(owner), ..l }
    }

    /// Whether a call to mint a ship to `to` goes through: the contract is
    /// running, its owner has authorized the call, and the token library can
    /// mint one more token to `to`. The host aborts any other call and undoes
    /// what the call did.
    pub open spec fn admits_mint(l: Ledger, granted: Set<AccountId>, to: AccountId) -> bool {
        l.running && owner_admits(l, granted) && can_issue(l, to)
    }

    /// The ledger after a ship with the attributes `a` is minted to `to`:
    /// the next token is `to`'s, its eight attributes are on file, and the
    /// log ends with the token library's report of the mint, the ship's
    /// identifier and its content identifier.
    pub open spec fn minted(l: Ledger, to: AccountId, a: ShipAttributes) -> Ledger {
        let id: u32 = next_id(l);
        let issued = with_token(l, to, id);
        Ledger {
            records: filed(l.records, id as u128, a),
            events: issued.events.push(token_id_event(id as u128)).push(ipfs_cid_event(a.ipfs_cid)),
            ..issued
        }
    }

    /// Whether the attribute records are those of the ships minted so far:
    /// every token that was issued has its eight attributes on file, each of
    /// its kind, and nothing else is on file.
    pub open spec fn well_formed(l: Ledger) -> bool {
        &&& forall|slot: RecordKey| #[trigger]
            l.records.contains_key(slot) ==> {
                &&& 0 < slot.1 < l.counter
                &&& is_attribute_name(slot.0)
                &&& is_kind_of(l.records[slot], attribute_named(slot.0))
            }
        &&& forall|key: AttributeKey, token_id: u128|
            0 < token_id < l.counter ==> l.records.contains_key(#[trigger] key.slot(token_id))
    }

    /// Sets the contract up: puts the collection's description and `owner`
    /// on record.
    pub fn __constructor(e: &mut Env, owner: Address)
        requires
            ledger(*old(e)).running,
            ledger(*old(e)).knows_address(owner),
            ledger(*old(e)).owner is None,
        ensures
            ledger(*final(e)) == Self::deployed(ledger(*old(e)), account_of(owner)),
    {
        let uri = new_text(e, "https://space-stellar.app");
        let name = new_text(e, "Space Stellar Ships");
        let symbol = new_text(e, "SSHIP");
        proof {
            reveal_strlit("https://space-stellar.app");
            is_ascii_chars_encode_utf8("https://space-stellar.app"@);
        }
        set_metadata(e, uri, name, symbol);
        set_owner(e, &owner);
    }

    /// Mints a ship to `to` and files its attributes. Only the contract's
    /// owner gets through: the owner's authorization is demanded before
    /// anything is written. Returns the new ship's identifier: 1 for the
    /// first ship, and one more for each ship after it.
    pub fn mint(
        e: &mut Env,
        to: Address,
        class: soroban_sdk::String,
        rarity: soroban_sdk::String,
        tier: soroban_sdk::String,
        attack: u32,
        speed: u32,
        shield: u32,
        ipfs_cid: soroban_sdk::String,
        metadata_uri: soroban_sdk::String,
    ) -> (token_id: u128)
        requires
            Self::admits_mint(ledger(*old(e)), authorizations(*old(e)), account_of(to)),
            ledger(*old(e)).knows_address(to),
            ledger(*old(e)).holds_string(class),
            ledger(*old(e)).holds_string(rarity),
            ledger(*old(e)).holds_string(tier),
            ledger(*old(e)).holds_string(ipfs_cid),
            ledger(*old(e)).holds_string(metadata_uri),
        ensures
            token_id == next_id(ledger(*old(e))),
            ledger(*final(e)) == Self::minted(
                ledger(*old(e)),
                account_of(to),
                ShipAttributes::given(
                    class,
                    rarity,
                    tier,
                    attack,
                    speed,
                    shield,
                    ipfs_cid,
                    metadata_uri,
                ),
            ),
    {
        let ghost before = ledger(*e);
        let ghost a = ShipAttributes::given(
            class,
            rarity,
            tier,
            attack,
            speed,
            shield,
            ipfs_cid,
            metadata_uri,
        );
        let _owner = enforce_owner_auth(e);
        let id: u32 = issue_token(e, &to);
        let token_id: u128 = id as u128;
        set_text(e, AttributeKey::Class, token_id, &class);
        set_text(e, AttributeKey::Rarity, token_id, &rarity);
        set_text(e, AttributeKey::Tier, token_id, &tier);
        set_number(e, AttributeKey::Attack, token_id, attack);
        set_number(e, AttributeKey::Speed, token_id, speed);
        set_number(e, AttributeKey::Shield, token_id, shield);
        set_text(e, AttributeKey::IpfsCid, token_id, &ipfs_cid);
        set_text(e, AttributeKey::MetadataUri, token_id, &metadata_uri);
        proof {
            lemma_eight_writes_file(before.records, token_id, a);
            lemma_event_names_are_symbols();
        }
        publish_number(e, "mint", "token_id", token_id);
        publish_text(e, "mint", "ipfs_cid", &ipfs_cid);
        token_id
    }

    /// The class of ship `token_id`, or `None` for a token that has none on
    /// file.
    pub fn get_ship_class(e: &Env, token_id: u128) -> (class: Option<soroban_sdk::String>)
        requires
            ledger(*e).running,
            ledger(*e).text_slot(AttributeKey::Class.slot(token_id)),
        ensures
            stored_text(class) == ledger(*e).record(AttributeKey::Class.slot(token_id)),
            class matches Some(s) ==> ledger(*e).holds_string(s),
    {
        get_text(e, AttributeKey::Class, token_id)
    }

    /// The rarity of ship `token_id`, or `None` for a token that has none on
    /// file.
    pub fn get_ship_rarity(e: &Env, token_id: u128) -> (rarity: Option<soroban_sdk::String>)
        requires
            ledger(*e).running,
            ledger(*e).text_slot(AttributeKey::Rarity.slot(token_id)),
        ensures
            stored_text(rarity) == ledger(*e).record(AttributeKey::Rarity.slot(token_id)),
            rarity matches Some(s) ==> ledger(*e).holds_string(s),
    {
        get_text(e, AttributeKey::Rarity, token_id)
    }

    /// The tier of ship `token_id`, or `None` for a token that has none on
    /// file.
    pub fn get_ship_tier(e: &Env, token_id: u128) -> (tier: Option<soroban_sdk::String>)
        requires
            ledger(*e).running,
            ledger(*e).text_slot(AttributeKey::Tier.slot(token_id)),
        ensures
            stored_text(tier) == ledger(*e).record(AttributeKey::Tier.slot(token_id)),
            tier matches Some(s) ==> ledger(*e).holds_string(s),
    {
        get_text(e, AttributeKey::Tier, token_id)
    }

    /// The attack strength of ship `token_id`, or `None` for a token that
    /// has none on file.
    pub fn get_ship_attack(e: &Env, token_id: u128) -> (attack: Option<u32>)
        requires
            ledger(*e).running,
            ledger(*e).number_slot(AttributeKey::Attack.slot(token_id)),
        ensures
            stored_number(attack) == ledger(*e).record(AttributeKey::Attack.slot(token_id)),
    {
        get_number(e, AttributeKey::Attack, token_id)
    }

    /// The speed of ship `token_id`, or `None` for a token that has none on
    /// file.
    pub fn get_ship_speed(e: &Env, token_id: u128) -> (speed: Option<u32>)
        requires
            ledger(*e).running,
            ledger(*e).number_slot(AttributeKey::Speed.slot(token_id)),
        ensures
            stored_number(speed) == ledger(*e).record(AttributeKey::Speed.slot(token_id)),
    {
        get_number(e, AttributeKey::Speed, token_id)
    }

    /// The shield strength of ship `token_id`, or `None` for a token that
    /// has none on file.
    pub fn get_ship_shield(e: &Env, token_id: u128) -> (shield: Option<u32>)
        requires
            ledger(*e).running,
            ledger(*e).number_slot(AttributeKey::Shield.slot(token_id)),
        ensures
            stored_number(shield) == ledger(*e).record(AttributeKey::Shield.slot(token_id)),
    {
        get_number(e, AttributeKey::Shield, token_id)
    }

    /// The content identifier of ship `token_id`, or `None` for a token
    /// that has none on file.
    pub fn get_ipfs_cid(e: &Env, token_id: u128) -> (ipfs_cid: Option<soroban_sdk::String>)
        requires
            ledger(*e).running,
            ledger(*e).text_slot(AttributeKey::IpfsCid.slot(token_id)),
        ensures
            stored_text(ipfs_cid) == ledger(*e).record(AttributeKey::IpfsCid.slot(token_id)),
            ipfs_cid matches Some(s) ==> ledger(*e).holds_string(s),
    {
        get_text(e, AttributeKey::IpfsCid, token_id)
    }

    /// The metadata URI of ship `token_id`, or `None` for a token that has
    /// none on file.
    pub fn get_metadata_uri(e: &Env, token_id: u128) -> (metadata_uri: Option<soroban_sdk::String>)
        requires
            ledger(*e).running,
            ledger(*e).text_slot(AttributeKey::MetadataUri.slot(token_id)),
        ensures
            stored_text(metadata_uri) == ledger(*e).record(
                AttributeKey::MetadataUri.slot(token_id),
            ),
            metadata_uri matches Some(s) ==> ledger(*e).holds_string(s),
    {
        get_text(e, AttributeKey::MetadataUri, token_id)
    }
}

/// Ship identifiers count up from 1: the first ship of a contract that has
/// minted nothing is number 1, and after any mint that goes through, the next
/// ship gets the number that follows, whatever attributes were given.
pub proof fn lemma_ship_ids_count_up(
    l: Ledger,
    granted: Set<AccountId>,
    to: AccountId,
    a: ShipAttributes,
)
    requires
        SpaceStellarNFT::admits_mint(l, granted, to),
    ensures
        l.counter == 0 ==> next_id(l) == 1,
        next_id(SpaceStellarNFT::minted(l, to, a)) == next_id(l) + 1,
{
}

/// After a mint, each of the new ship's eight attributes is on file with
/// exactly the value given, in a slot of the attribute's kind.
pub proof fn lemma_minted_attributes_read_back(
    l: Ledger,
    to: AccountId,
    a: ShipAttributes,
    key: AttributeKey,
)
    ensures
        SpaceStellarNFT::minted(l, to, a).record(key.slot(next_id(l) as u128)) == Some(
            a.value(key),
        ),
        is_kind_of(a.value(key), key),
{
    lemma_attribute_named(key);
    assert(is_attribute_of(key.slot(next_id(l) as u128), next_id(l) as u128));
}

/// A mint leaves the attributes of every other token as they were.
pub proof fn lemma_mint_keeps_other_attributes(
    l: Ledger,
    to: AccountId,
    a: ShipAttributes,
    key: AttributeKey,
    token_id: u128,
)
    requires
        token_id != next_id(l),
    ensures
        SpaceStellarNFT::minted(l, to, a).record(key.slot(token_id)) == l.record(
            key.slot(token_id),
        ),
{
}

/// A contract that has minted nothing and has nothing on file is well
/// formed.
pub proof fn lemma_new_contract_is_well_formed(l: Ledger)
    requires
        l.counter == 0,
        l.records == Map::<RecordKey, HostValue>::empty(),
    ensures
        SpaceStellarNFT::well_formed(l),
{
}

/// Setting the contract up keeps the ledger well formed.
pub proof fn lemma_deploy_keeps_well_formed(l: Ledger, owner: AccountId)
    requires
        SpaceStellarNFT::well_formed(l),
    ensures
        SpaceStellarNFT::well_formed(SpaceStellarNFT::deployed(l, owner)),
{
}

/// A mint keeps the ledger well formed.
pub proof fn lemma_mint_keeps_well_formed(l: Ledger, to: AccountId, a: ShipAttributes)
    requires
        SpaceStellarNFT::well_formed(l),
        can_issue(l, to),
    ensures
        SpaceStellarNFT::well_formed(SpaceStellarNFT::minted(l, to, a)),
{
    let id: u128 = next_id(l) as u128;
    let after = SpaceStellarNFT::minted(l, to, a);
    assert forall|slot: RecordKey| #[trigger] after.records.contains_key(slot) implies {
        &&& 0 < slot.1 < after.counter
        &&& is_attribute_name(slot.0)
        &&& is_kind_of(after.records[slot], attribute_named(slot.0))
    } by {
        if is_attribute_of(slot, id) {
            lemma_minted_attributes_read_back(l, to, a, attribute_named(slot.0));
        } else {
            assert(l.records.contains_key(slot));
        }
    }
    assert forall|key: AttributeKey, token_id: u128| 0 < token_id < after.counter implies
        after.records.contains_key(#[trigger] key.slot(token_id)) by {
        if token_id == id {
            assert(is_attribute_of(key.slot(token_id), id));
        } else {
            assert(l.records.contains_key(key.slot(token_id)));
        }
    }
}

/// In a well-formed ledger every attribute slot is free or holds a value of
/// the attribute's kind, so that it can be read.
pub proof fn lemma_well_formed_slots_are_readable(l: Ledger, key: AttributeKey, token_id: u128)
    requires
        SpaceStellarNFT::well_formed(l),
    ensures
        key.is_number() ==> l.number_slot(key.slot(token_id)),
        !key.is_number() ==> l.text_slot(key.slot(token_id)),
{
    lemma_attribute_named(key);
}

/// A token that was never minted has no attribute on file: reading any of
/// them finds nothing.
pub proof fn lemma_unminted_token_has_no_attributes(l: Ledger, key: AttributeKey, token_id: u128)
    requires
        SpaceStellarNFT::well_formed(l),
        !(0 < token_id < l.counter),
    ensures
        l.record(key.slot(token_id)) is None,
{
}

/// A mint changes neither the owner nor the collection's description.
pub proof fn lemma_mint_keeps_owner_and_description(l: Ledger, to: AccountId, a: ShipAttributes)
    ensures
        SpaceStellarNFT::minted(l, to, a).owner == l.owner,
        SpaceStellarNFT::minted(l, to, a).info == l.info,
{
}

/// A mint goes through only with the authorization of the owner on record.
pub proof fn lemma_only_the_owner_mints(l: Ledger, granted: Set<AccountId>, to: AccountId)
    requires
        SpaceStellarNFT::admits_mint(l, granted, to),
    ensures
        l.owner matches Some(owner) && granted.contains(owner),
{
}

/// The names of the topics under which a mint is reported are symbols.
proof fn lemma_event_names_are_symbols()
    ensures
        is_symbol("mint"@),
        is_symbol("token_id"@),
        is_symbol("ipfs_cid"@),
{
    reveal_strlit("mint");
    reveal_strlit("token_id");
    reveal_strlit("ipfs_cid");
}

/// A name belongs to the attribute that bears it, and to no other.
proof fn lemma_attribute_named(key: AttributeKey)
    ensures
        attribute_named(key.name()) == key,
{
    lemma_names_differ(attribute_named(key.name()), key);
}

/// Writing a token's eight attributes one after the other files them.
proof fn lemma_eight_writes_file(
    records: Map<RecordKey, HostValue>,
    token_id: u128,
    a: ShipAttributes,
)
    ensures
        written(records, token_id, a) == filed(records, token_id, a),
{
    assert forall|key: AttributeKey| #[trigger] attribute_named(key.name()) == key by {
        lemma_attribute_named(key);
    }
    assert forall|j: AttributeKey, k: AttributeKey| j.name() == k.name() implies j == k by {
        lemma_names_differ(j, k);
    }
    assert forall|slot: RecordKey| is_attribute_of(slot, token_id) implies
        slot == attribute_named(slot.0).slot(token_id) by {
        let key = choose|key: AttributeKey| slot.0 == #[trigger] key.name();
        assert(slot == key.slot(token_id));
    }
    assert(written(records, token_id, a) =~= filed(records, token_id, a));
}

/// The records after the eight writes of a mint, in the order in which they
/// are made.
spec fn written(
    records: Map<RecordKey, HostValue>,
    token_id: u128,
    a: ShipAttributes,
) -> Map<RecordKey, HostValue> {
    records
        .insert(AttributeKey::Class.slot(token_id), a.value(AttributeKey::Class))
        .insert(AttributeKey::Rarity.slot(token_id), a.value(AttributeKey::Rarity))
        .insert(AttributeKey::Tier.slot(token_id), a.value(AttributeKey::Tier))
        .insert(AttributeKey::Attack.slot(token_id), a.value(AttributeKey::Attack))
        .insert(AttributeKey::Speed.slot(token_id), a.value(AttributeKey::Speed))
        .insert(AttributeKey::Shield.slot(token_id), a.value(AttributeKey::Shield))
        .insert(AttributeKey::IpfsCid.slot(token_id), a.value(AttributeKey::IpfsCid))
        .insert(AttributeKey::MetadataUri.slot(token_id), a.value(AttributeKey::MetadataUri))
}

} // verus!
