//! The access-control library's part of the ledger: the contract's owner, and
//! the guard that lets only the owner through.
//!
//! Both functions call the access-control library and are believed as
//! written.

use vstd::prelude::*;
use soroban_sdk::{Address, Env};
use stellar_access::ownable;
use crate::host::{
    account_of, address_host, authorizations, contract_owner, contract_running, host_id, ledger,
    AccountId, Ledger,
};

verus! {

/// Whether the guard lets the running call through: an owner is on record,
/// and the host accepts that account's authorization for this call.
pub open spec fn owner_admits(l: Ledger, granted: Set<AccountId>) -> bool {
    l.owner matches Some(owner) && granted.contains(owner)
}

/// `stellar_access::ownable::set_owner`: puts `owner` on record as the
/// contract's owner. The call aborts where an owner is on record already.
#[verifier::external_body]
pub(crate) fn set_owner(e: &mut Env, owner: &Address)
    requires
        contract_running(*old(e)),
        address_host(*owner) == host_id(*old(e)),
        contract_owner(*old(e)) is None,
    ensures
        contract_owner(*final(e)) == Some(account_of(*owner)),
        ledger(*final(e)) == (Ledger { owner: contract_owner(*final(e)), ..ledger(*old(e)) }),
{
    ownable::set_owner(e, owner);
}

/// `stellar_access::ownable::enforce_owner_auth`, which the attribute
/// `only_owner` of `stellar_macros` puts at the head of a function: demands
/// the authorization of the owner on record and returns the owner. The call
/// aborts where no owner is on record or where the host does not accept the
/// owner's authorization for the running call. It changes nothing of the
/// ledger. Whether the host would accept the same authorization once more is
/// left open.
#[verifier::external_body]
pub(crate) fn enforce_owner_auth(e: &mut Env) -> (owner: Address)
    requires
        contract_running(*old(e)),
        owner_admits(ledger(*old(e)), authorizations(*old(e))),
    ensures
        contract_owner(*old(e)) == Some(account_of(owner)),
        authorizations(*old(e)).contains(account_of(owner)),
        address_host(owner) == host_id(*old(e)),
        contract_running(*final(e)),
        ledger(*final(e)) == ledger(*old(e)),
{
    ownable::enforce_owner_auth(e)
}

} // verus!
