//! The profile-picture collection: anyone may mint, but an address holds at
//! most one token.

use vstd::prelude::*;
use vstd::string::StringSliceAdditionalSpecFns;
use vstd::utf8::is_ascii_chars_encode_utf8;
use soroban_sdk::{Address, Env};
use crate::access::set_owner;
use crate::host::{account_of, ledger, new_text, AccountId, CollectionInfo, Ledger};
use crate::tokens::{balance, issue_token, next_id, set_metadata, with_token};

verus! {

/// The profile-picture collection.
pub struct SpaceStellarPFP;

/// Why a profile picture was not minted.
#[derive(Clone, Copy, Debug, PartialEq, Eq, Structural)]
pub enum MintError {
    /// The address holds a profile picture already.
    AlreadyOwnsPfp,
}

impl MintError {
    /// The reason in words.
    pub fn message(&self) -> (text: &'static str)
        ensures
            text@ == "Address already owns a PFP NFT"@,
    {
        match self {
            MintError::AlreadyOwnsPfp => "Address already owns a PFP NFT",
        }
    }
}

impl SpaceStellarPFP {
    /// The collection's description.
    pub open spec fn info() -> CollectionInfo {
        CollectionInfo {
            base_uri: "https://spacestellar.com/pfp/".spec_bytes(),
            name: "Space Stellar PFP".spec_bytes(),
            symbol: "SSPFP".spec_bytes(),
        }
    }

    /// The ledger after the contract is set up for `owner`: the collection's
    /// description and the owner are on record, and nothing else has changed.
    pub open spec fn deployed(l: Ledger, owner: AccountId) -> Ledger {
        Ledger { info: Some(Self::info()), owner: Some(owner), ..l }
    }

    /// What a call to mint a profile picture to `to` returns: the next
    /// token's identifier, or the refusal owed to an address that holds a
    /// token already.
    pub open spec fn mint_result(l: Ledger, to: AccountId) -> Result<u32, MintError> {
        if l.balance(to) > 0 {
            Err(MintError::AlreadyOwnsPfp)
        } else {
            Ok(next_id(l))
        }
    }

    /// The ledger after a call to mint a profile picture to `to`: with the
    /// next token minted to `to`, or unchanged where the call is refused.
    pub open spec fn after_mint(l: Ledger, to: AccountId) -> Ledger {
        if l.balance(to) > 0 {
            l
        } else {
            with_token(l, to, next_id(l))
        }
    }

    /// Sets the contract up: puts the collection's description and `owner`
    /// on record.
    pub fn __constructor(e: &mut Env, owner: Address)
        requires
            ledger(*old(e)).running,
            ledger(*old(e)).knows_address(owner),
            ledger(*old(e)).owner is None,
        ensures
            ledger(*final(e)) == Self::deployed(ledger(*old(e)), account_of(owner)),
    {
        let uri = new_text(e, "https://spacestellar.com/pfp/");
        let name = new_text(e, "Space Stellar PFP");
        let symbol = new_text(e, "SSPFP");
        proof {
            reveal_strlit("https://spacestellar.com/pfp/");
            is_ascii_chars_encode_utf8("https://spacestellar.com/pfp/"@);
        }
        set_metadata(e, uri, name, symbol);
        set_owner(e, &owner);
    }

    /// Mints a profile picture to `to` and returns its identifier. Anyone
    /// may call this; an address that holds a profile picture already is
    /// refused, and nothing changes.
    pub fn mint(e: &mut Env, to: Address) -> (minted: Result<u32, MintError>)
        requires
            ledger(*old(e)).running,
            ledger(*old(e)).knows_address(to),
            ledger(*old(e)).balance(account_of(to)) == 0 ==> ledger(*old(e)).counter < u32::MAX,
        ensures
            minted == Self::mint_result(ledger(*old(e)), account_of(to)),
            ledger(*final(e)) == Self::after_mint(ledger(*old(e)), account_of(to)),
    {
        let held: u32 = balance(e, &to);
        if held > 0 {
            return Err(MintError::AlreadyOwnsPfp);
        }
        let token_id: u32 = issue_token(e, &to);
        Ok(token_id)
    }

    /// Whether `owner` holds a profile picture.
    pub fn has_pfp(e: &Env, owner: Address) -> (held: bool)
        requires
            ledger(*e).running,
            ledger(*e).knows_address(owner),
        ensures
            held == (ledger(*e).balance(account_of(owner)) > 0),
    {
        balance(e, &owner) > 0
    }
}

/// An address that holds a profile picture is refused, and the ledger stays
/// as it was.
pub proof fn lemma_holder_is_refused(l: Ledger, to: AccountId)
    requires
        l.balance(to) > 0,
    ensures
        SpaceStellarPFP::mint_result(l, to) == Err::<u32, MintError>(MintError::AlreadyOwnsPfp),
        SpaceStellarPFP::after_mint(l, to) == l,
{
}

/// One picture per address: after an address has minted its profile picture
/// it holds exactly one, a second call is refused, and after that call it
/// still holds exactly one.
pub proof fn lemma_second_mint_is_refused(l: Ledger, to: AccountId)
    requires
        l.balance(to) == 0,
    ensures
        SpaceStellarPFP::mint_result(l, to) == Ok::<u32, MintError>(next_id(l)),
        SpaceStellarPFP::after_mint(l, to).balance(to) == 1,
        SpaceStellarPFP::mint_result(SpaceStellarPFP::after_mint(l, to), to) == Err::<
            u32,
            MintError,
        >(MintError::AlreadyOwnsPfp),
        SpaceStellarPFP::after_mint(SpaceStellarPFP::after_mint(l, to), to).balance(to) == 1,
{
}

/// Minting never lets an address hold more than one profile picture.
pub proof fn lemma_mint_keeps_one_per_address(l: Ledger, to: AccountId)
    requires
        forall|who: AccountId| l.balance(who) <= 1,
    ensures
        forall|who: AccountId| SpaceStellarPFP::after_mint(l, to).balance(who) <= 1,
{
    assert forall|who: AccountId| SpaceStellarPFP::after_mint(l, to).balance(who) <= 1 by {
        assert(l.balance(who) <= 1);
        assert(l.balance(to) <= 1);
    }
}

/// A mint changes neither the owner nor the collection's description, and
/// files no attribute.
pub proof fn lemma_mint_keeps_the_rest(l: Ledger, to: AccountId)
    ensures
        SpaceStellarPFP::after_mint(l, to).owner == l.owner,
        SpaceStellarPFP::after_mint(l, to).info == l.info,
        SpaceStellarPFP::after_mint(l, to).records == l.records,
{
}

/// Profile-picture identifiers count up from 1: the first picture of a
/// contract that has minted nothing is number 1, and after a mint that goes
/// through, the next picture gets the number that follows.
pub proof fn lemma_pfp_ids_count_up(l: Ledger, to: AccountId)
    requires
        l.balance(to) == 0,
        l.counter < u32::MAX,
    ensures
        l.counter == 0 ==> next_id(l) == 1,
        next_id(SpaceStellarPFP::after_mint(l, to)) == next_id(l) + 1,
{
}

} // verus!
