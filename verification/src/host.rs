//! The host ledger as a contract sees it.
//!
//! A contract keeps nothing of its own between calls: what it knows lives in
//! the host, behind an [`Env`] handle. This module gives that state a
//! mathematical reading, [`Ledger`], and wraps the host calls the contracts
//! make, each with a contract over that reading. The functions without a
//! body name what the host holds; the functions marked `external_body` call
//! the host. Both are believed as written, and the contracts' logic is
//! proved from them.
//!
//! A call that changes the host takes `&mut Env`, so that the state before
//! and after can be told apart. A handle can be cloned, and every clone
//! reaches the same host: what is stated of a handle holds as long as the
//! host is changed through that handle alone. The host's resource limits are
//! outside this reading: a call that exhausts them is aborted by the host
//! with all its effects undone.

use vstd::prelude::*;
use vstd::string::StringSliceAdditionalSpecFns;
use soroban_sdk::{Address, Env, Symbol};

verus! {

/// `soroban_sdk::Env`: a handle to the host.
#[verifier::external_type_specification]
#[verifier::external_body]
pub struct ExEnv(Env);

/// `soroban_sdk::Address`: a handle to an account or a contract that the host
/// knows.
#[verifier::external_type_specification]
#[verifier::external_body]
pub struct ExAddress(Address);

/// `soroban_sdk::String`: a handle to a byte string that the host holds.
#[verifier::external_type_specification]
#[verifier::external_body]
pub struct ExString(soroban_sdk::String);

/// What identifies an account or a contract: its key in text form, byte
/// for byte.
pub type AccountId = Seq<u8>;

/// A value in the form the host keeps it, as far as the contracts handle
/// such values.
pub enum HostValue {
    /// A short name made of letters, digits and underscores.
    Symbol(Seq<char>),
    /// An account or a contract.
    Account(AccountId),
    /// A byte string.
    Text(Seq<u8>),
    /// A 32-bit number.
    U32(u32),
    /// A 128-bit number.
    U128(u128),
    /// Any other value.
    Other,
}

/// One entry of the host's event log.
pub struct Event {
    pub topics: Seq<HostValue>,
    pub data: HostValue,
}

/// The collection's description: where its tokens are described, what it is
/// called, and its ticker.
pub struct CollectionInfo {
    pub base_uri: Seq<u8>,
    pub name: Seq<u8>,
    pub symbol: Seq<u8>,
}

/// Where an attribute record is filed: the attribute's name and the token.
pub type RecordKey = (Seq<char>, u128);

/// An identity of the host behind `env`, the same for every handle to it and
/// through every change of its state.
pub uninterp spec fn host_id(env: Env) -> int;

/// Whether a contract is running in the host, so that its storage and its
/// event log can be reached.
pub uninterp spec fn contract_running(env: Env) -> bool;

/// The owner that the access-control library has on record for the running
/// contract.
pub uninterp spec fn contract_owner(env: Env) -> Option<AccountId>;

/// The description that the token library has on record for the running
/// contract's collection.
pub uninterp spec fn collection_info(env: Env) -> Option<CollectionInfo>;

/// The token library's counter for the running contract: the identifier that
/// its next sequential mint hands out. It is 0 in a contract that has minted
/// nothing.
pub uninterp spec fn token_counter(env: Env) -> u32;

/// How many of the running contract's tokens each account holds, by the
/// token library's books. An account without an entry holds none.
pub uninterp spec fn token_holdings(env: Env) -> Map<AccountId, u32>;

/// The holder of each of the running contract's tokens, by the token
/// library's books.
pub uninterp spec fn token_owners(env: Env) -> Map<u32, AccountId>;

/// The entries of the running contract's instance storage that are filed
/// under a pair of a symbol and a 128-bit number. The token and
/// access-control libraries keep their own entries in the same storage, under
/// keys of another shape; they are not among these.
pub uninterp spec fn attribute_records(env: Env) -> Map<RecordKey, HostValue>;

/// The events that the running contract has published since the call began,
/// oldest first.
pub uninterp spec fn event_log(env: Env) -> Seq<Event>;

/// The accounts whose authorization the host accepts for the call that is
/// running.
pub uninterp spec fn authorizations(env: Env) -> Set<AccountId>;

/// The host that issued the address `a`.
pub uninterp spec fn address_host(a: Address) -> int;

/// The account or contract that the address `a` stands for.
pub uninterp spec fn account_of(a: Address) -> AccountId;

/// The host that holds the string `s`.
pub uninterp spec fn string_host(s: soroban_sdk::String) -> int;

/// The bytes of the host string `s`.
pub uninterp spec fn text_of(s: soroban_sdk::String) -> Seq<u8>;

/// The state of the host, as far as the contracts read or change it.
pub struct Ledger {
    /// Which host this is.
    pub host: int,
    /// Whether a contract is running.
    pub running: bool,
    /// The contract's owner.
    pub owner: Option<AccountId>,
    /// The collection's description.
    pub info: Option<CollectionInfo>,
    /// The identifier that the token library hands out next.
    pub counter: u32,
    /// How many tokens each account holds.
    pub holdings: Map<AccountId, u32>,
    /// Who holds each token.
    pub token_owners: Map<u32, AccountId>,
    /// The attribute records.
    pub records: Map<RecordKey, HostValue>,
    /// The events that the contract has published in the running call.
    pub events: Seq<Event>,
}

/// The ledger behind `env`.
pub open spec fn ledger(env: Env) -> Ledger {
    Ledger {
        host: host_id(env),
        running: contract_running(env),
        owner: contract_owner(env),
        info: collection_info(env),
        counter: token_counter(env),
        holdings: token_holdings(env),
        token_owners: token_owners(env),
        records: attribute_records(env),
        events: event_log(env),
    }
}

impl Ledger {
    /// How many tokens `who` holds.
    pub open spec fn balance(self, who: AccountId) -> u32 {
        if self.holdings.contains_key(who) {
            self.holdings[who]
        } else {
            0
        }
    }

    /// Whether the address `a` was issued by this ledger's host.
    pub open spec fn knows_address(self, a: Address) -> bool {
        address_host(a) == self.host
    }

    /// Whether the string `s` is held by this ledger's host.
    pub open spec fn holds_string(self, s: soroban_sdk::String) -> bool {
        string_host(s) == self.host
    }

    /// Whether the slot `key` is free or holds a byte string.
    pub open spec fn text_slot(self, key: RecordKey) -> bool {
        self.records.contains_key(key) ==> self.records[key] is Text
    }

    /// Whether the slot `key` is free or holds a 32-bit number.
    pub open spec fn number_slot(self, key: RecordKey) -> bool {
        self.records.contains_key(key) ==> self.records[key] is U32
    }
}

/// Whether `c` may stand in a symbol.
pub open spec fn is_symbol_char(c: char) -> bool {
    ('a' <= c && c <= 'z') || ('A' <= c && c <= 'Z') || ('0' <= c && c <= '9') || c == '_'
}

/// Whether `s` is the text of a symbol: at most 32 letters, digits and
/// underscores.
pub open spec fn is_symbol(s: Seq<char>) -> bool {
    s.len() <= 32 && forall|i: int| 0 <= i < s.len() ==> is_symbol_char(#[trigger] s[i])
}

/// `soroban_sdk::String::from_str`: a new string of the host behind `e`,
/// with the bytes of `s`.
#[verifier::external_body]
pub(crate) fn new_text(e: &Env, s: &str) -> (text: soroban_sdk::String)
    ensures
        text_of(text) == s.spec_bytes(),
        string_host(text) == host_id(*e),
{
    soroban_sdk::String::from_str(e, s)
}

/// `soroban_sdk::storage::Instance::set` on the running contract's instance
/// storage, under the key made of the symbol `key` and `token_id`: the slot
/// then holds the string `value`, whatever it held before, and no other slot
/// changes. `soroban_sdk::Symbol::new` makes the symbol, and aborts on text
/// that is not a symbol's.
#[verifier::external_body]
pub(crate) fn store_text(e: &mut Env, key: &str, token_id: u128, value: &soroban_sdk::String)
    requires
        contract_running(*old(e)),
        is_symbol(key@),
        string_host(*value) == host_id(*old(e)),
    ensures
        attribute_records(*final(e)) == attribute_records(*old(e)).insert(
            (key@, token_id),
            HostValue::Text(text_of(*value)),
        ),
        ledger(*final(e)) == (Ledger { records: attribute_records(*final(e)), ..ledger(*old(e)) }),
{
    e.storage().instance().set(&(Symbol::new(e, key), token_id), value);
}

/// `soroban_sdk::storage::Instance::set` as in [`store_text`], for a 32-bit
/// number.
#[verifier::external_body]
pub(crate) fn store_number(e: &mut Env, key: &str, token_id: u128, value: u32)
    requires
        contract_running(*old(e)),
        is_symbol(key@),
    ensures
        attribute_records(*final(e)) == attribute_records(*old(e)).insert(
            (key@, token_id),
            HostValue::U32(value),
        ),
        ledger(*final(e)) == (Ledger { records: attribute_records(*final(e)), ..ledger(*old(e)) }),
{
    e.storage().instance().set(&(Symbol::new(e, key), token_id), &value);
}

/// `soroban_sdk::storage::Instance::get` on the running contract's instance
/// storage, read as a string: the string in the slot, or `None` where the
/// slot is free. The call aborts on a slot that holds anything else.
#[verifier::external_body]
pub(crate) fn load_text(e: &Env, key: &str, token_id: u128) -> (found: Option<soroban_sdk::String>)
    requires
        contract_running(*e),
        is_symbol(key@),
        ledger(*e).text_slot((key@, token_id)),
    ensures
        match found {
            Some(s) => attribute_records(*e).contains_key((key@, token_id))
                && attribute_records(*e)[(key@, token_id)] == HostValue::Text(text_of(s))
                && string_host(s) == host_id(*e),
            None => !attribute_records(*e).contains_key((key@, token_id)),
        },
{
    e.storage().instance().get(&(Symbol::new(e, key), token_id))
}

/// `soroban_sdk::storage::Instance::get` as in [`load_text`], read as a
/// 32-bit number.
#[verifier::external_body]
pub(crate) fn load_number(e: &Env, key: &str, token_id: u128) -> (found: Option<u32>)
    requires
        contract_running(*e),
        is_symbol(key@),
        ledger(*e).number_slot((key@, token_id)),
    ensures
        match found {
            Some(n) => attribute_records(*e).contains_key((key@, token_id))
                && attribute_records(*e)[(key@, token_id)] == HostValue::U32(n),
            None => !attribute_records(*e).contains_key((key@, token_id)),
        },
{
    e.storage().instance().get(&(Symbol::new(e, key), token_id))
}

/// `soroban_sdk::events::Events::publish` with two symbols as topics and a
/// 128-bit number as data: the event is appended to the log.
#[verifier::external_body]
pub(crate) fn publish_number(e: &mut Env, topic: &str, subtopic: &str, data: u128)
    requires
        contract_running(*old(e)),
        is_symbol(topic@),
        is_symbol(subtopic@),
    ensures
        event_log(*final(e)) == event_log(*old(e)).push(
            Event {
                topics: seq![HostValue::Symbol(topic@), HostValue::Symbol(subtopic@)],
                data: HostValue::U128(data),
            },
        ),
        ledger(*final(e)) == (Ledger { events: event_log(*final(e)), ..ledger(*old(e)) }),
{
    e.events().publish((Symbol::new(e, topic), Symbol::new(e, subtopic)), data);
}

/// `soroban_sdk::events::Events::publish` as in [`publish_number`], with a
/// string as data.
#[verifier::external_body]
pub(crate) fn publish_text(e: &mut Env, topic: &str, subtopic: &str, data: &soroban_sdk::String)
    requires
        contract_running(*old(e)),
        is_symbol(topic@),
        is_symbol(subtopic@),
        string_host(*data) == host_id(*old(e)),
    ensures
        event_log(*final(e)) == event_log(*old(e)).push(
            Event {
                topics: seq![HostValue::Symbol(topic@), HostValue::Symbol(subtopic@)],
                data: HostValue::Text(text_of(*data)),
            },
        ),
        ledger(*final(e)) == (Ledger { events: event_log(*final(e)), ..ledger(*old(e)) }),
{
    e.events().publish((Symbol::new(e, topic), Symbol::new(e, subtopic)), data.clone());
}

} // verus!
