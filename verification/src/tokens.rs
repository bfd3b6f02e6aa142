//! The token library's part of the ledger: the collection's description, the
//! sequence of token identifiers, and the books of who holds what.
//!
//! Minting, ownership and balances are the token library's work. The
//! contracts call it and add one rule of their own: the first token is
//! number 1.
//!
//! The functions marked `external_body` call the token library and are
//! believed as written; [`issue_token`] is proved from them.

use vstd::prelude::*;
use soroban_sdk::{Address, Env};
use stellar_tokens::non_fungible::{sequential, Base};
use crate::host::{
    account_of, address_host, collection_info, contract_running, event_log, host_id, ledger,
    string_host, text_of, token_counter, token_holdings, token_owners, AccountId, CollectionInfo,
    Event, HostValue, Ledger,
};

verus! {

/// The longest base URI that the token library takes, in bytes.
pub const MAX_BASE_URI_LEN: usize = 200;

/// The identifier that the next token gets: the counter's value, but never 0.
pub open spec fn next_id(l: Ledger) -> u32 {
    if l.counter == 0 {
        1
    } else {
        l.counter
    }
}

/// The event by which the token library reports that `to` received `id`.
pub open spec fn mint_event(to: AccountId, id: u32) -> Event {
    Event {
        topics: seq![HostValue::Symbol("mint"@), HostValue::Account(to)],
        data: HostValue::U32(id),
    }
}

/// The ledger after the token library has minted token `id` to `to`: the
/// counter stands behind `id`, `to` holds one token more and is on record as
/// the holder of `id`, and the mint is reported in the event log.
pub open spec fn with_token(l: Ledger, to: AccountId, id: u32) -> Ledger {
    Ledger {
        counter: (id + 1) as u32,
        holdings: l.holdings.insert(to, (l.balance(to) + 1) as u32),
        token_owners: l.token_owners.insert(id, to),
        events: l.events.push(mint_event(to, id)),
        ..l
    }
}

/// Whether the token library can mint one more token to `to`: identifiers
/// are left, and the balance of `to` can still grow.
pub open spec fn can_issue(l: Ledger, to: AccountId) -> bool {
    l.counter < u32::MAX && l.balance(to) < u32::MAX
}

/// `stellar_tokens::non_fungible::Base::set_metadata`: puts the collection's
/// description on record, in place of any that was there. The call aborts on
/// a base URI of more than 200 bytes.
#[verifier::external_body]
pub(crate) fn set_metadata(
    e: &mut Env,
    base_uri: soroban_sdk::String,
    name: soroban_sdk::String,
    symbol: soroban_sdk::String,
)
    requires
        contract_running(*old(e)),
        string_host(base_uri) == host_id(*old(e)),
        string_host(name) == host_id(*old(e)),
        string_host(symbol) == host_id(*old(e)),
        text_of(base_uri).len() <= MAX_BASE_URI_LEN,
    ensures
        collection_info(*final(e)) == Some(
            CollectionInfo {
                base_uri: text_of(base_uri),
                name: text_of(name),
                symbol: text_of(symbol),
            },
        ),
        ledger(*final(e)) == (Ledger { info: collection_info(*final(e)), ..ledger(*old(e)) }),
{
    Base::set_metadata(e, base_uri, name, symbol);
}

/// `stellar_tokens::non_fungible::sequential::next_token_id`: the counter's
/// value.
#[verifier::external_body]
pub(crate) fn read_counter(e: &Env) -> (id: u32)
    requires
        contract_running(*e),
    ensures
        id == token_counter(*e),
{
    sequential::next_token_id(e)
}

/// `stellar_tokens::non_fungible::sequential::increment_token_id`: returns
/// the counter's value and moves the counter on by `amount`. The call aborts
/// where the counter would pass the largest 32-bit number.
#[verifier::external_body]
pub(crate) fn advance_counter(e: &mut Env, amount: u32) -> (id: u32)
    requires
        contract_running(*old(e)),
        token_counter(*old(e)) + amount <= u32::MAX,
    ensures
        id == token_counter(*old(e)),
        token_counter(*final(e)) == id + amount,
        ledger(*final(e)) == (Ledger { counter: token_counter(*final(e)), ..ledger(*old(e)) }),
{
    sequential::increment_token_id(e, amount)
}

/// `stellar_tokens::non_fungible::Base::sequential_mint`: mints the token
/// whose identifier is the counter's value to `to`, moves the counter on by
/// one, and reports the mint in the event log. The call aborts where the
/// counter stands at the largest 32-bit number or where `to` holds that many
/// tokens.
#[verifier::external_body]
pub(crate) fn sequential_mint(e: &mut Env, to: &Address) -> (id: u32)
    requires
        contract_running(*old(e)),
        address_host(*to) == host_id(*old(e)),
        token_counter(*old(e)) < u32::MAX,
        ledger(*old(e)).balance(account_of(*to)) < u32::MAX,
    ensures
        id == token_counter(*old(e)),
        token_counter(*final(e)) == id + 1,
        token_holdings(*final(e)) == token_holdings(*old(e)).insert(
            account_of(*to),
            (ledger(*old(e)).balance(account_of(*to)) + 1) as u32,
        ),
        token_owners(*final(e)) == token_owners(*old(e)).insert(id, account_of(*to)),
        event_log(*final(e)) == event_log(*old(e)).push(mint_event(account_of(*to), id)),
        ledger(*final(e)) == (Ledger {
            counter: token_counter(*final(e)),
            holdings: token_holdings(*final(e)),
            token_owners: token_owners(*final(e)),
            events: event_log(*final(e)),
            ..ledger(*old(e))
        }),
{
    Base::sequential_mint(e, to)
}

/// `stellar_tokens::non_fungible::Base::balance`: how many tokens `account`
/// holds, 0 for an account that is not in the books.
#[verifier::external_body]
pub(crate) fn balance(e: &Env, account: &Address) -> (held: u32)
    requires
        contract_running(*e),
        address_host(*account) == host_id(*e),
    ensures
        held == (if token_holdings(*e).contains_key(account_of(*account)) {
            token_holdings(*e)[account_of(*account)]
        } else {
            0
        }),
{
    Base::balance(e, account)
}

/// Mints the next token to `to` and returns its identifier. Identifiers
/// start at 1: where the token library's counter still stands at 0, that
/// number is passed over first.
pub fn issue_token(e: &mut Env, to: &Address) -> (id: u32)
    requires
        ledger(*old(e)).running,
        ledger(*old(e)).knows_address(*to),
        can_issue(ledger(*old(e)), account_of(*to)),
    ensures
        id == next_id(ledger(*old(e))),
        ledger(*final(e)) == with_token(ledger(*old(e)), account_of(*to), id),
{
    if read_counter(e) == 0 {
        let _ = advance_counter(e, 1);
    }
    sequential_mint(e, to)
}

} // verus!
