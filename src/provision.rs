use vstd::prelude::*;
use crate::address::{holding_address_spec, Address};

verus! {

/// Creation of the associated holding account `address` of `owner` for `asset`, paid by
/// `payer`.
#[derive(Clone, Copy, Debug, PartialEq, Eq)]
pub struct HoldingAccountPlan {
    pub payer: Address,
    pub owner: Address,
    pub asset: Address,
    pub address: Address,
}

/// What provisioning does once the ledger has said whether the account exists.
#[derive(Clone, Copy, Debug, PartialEq, Eq)]
pub enum ProvisionStep {
    /// The account exists: use it as it is.
    Reuse(Address),
    /// The account is missing: create it first.
    Create(HoldingAccountPlan),
}

pub open spec fn provision_step_spec(
    payer: Address,
    owner: Address,
    asset: Address,
    address: Address,
    exists: bool,
) -> ProvisionStep {
    if exists {
        ProvisionStep::Reuse(address)
    } else {
        ProvisionStep::Create(HoldingAccountPlan { payer, owner, asset, address })
    }
}

/// Decides whether the holding account `address` must be created.
pub fn provision_step(
    payer: &Address,
    owner: &Address,
    asset: &Address,
    address: &Address,
    exists: bool,
) -> (r: ProvisionStep)
    ensures
        r == provision_step_spec(*payer, *owner, *asset, *address, exists),
{
    if exists {
        ProvisionStep::Reuse(*address)
    } else {
        ProvisionStep::Create(
            HoldingAccountPlan { payer: *payer, owner: *owner, asset: *asset, address: *address },
        )
    }
}

/// One provisioning run against a ledger that holds the accounts `ledger`, where a creation
/// that is asked for succeeds: the ledger afterwards, and whether something was created.
pub open spec fn ensure_effect(
    ledger: Set<Seq<u8>>,
    payer: Address,
    owner: Address,
    asset: Address,
    address: Address,
) -> (Set<Seq<u8>>, bool) {
    match provision_step_spec(payer, owner, asset, address, ledger.contains(address@)) {
        ProvisionStep::Reuse(_) => (ledger, false),
        ProvisionStep::Create(plan) => (ledger.insert(plan.address@), true),
    }
}

/// Provisioning is idempotent: two runs for the same owner and asset derive the same
/// address; the first creates the account exactly when it was missing, and the second
/// creates nothing and leaves the ledger as the first left it.
pub proof fn lemma_provision_idempotent(
    ledger: Set<Seq<u8>>,
    payer: Address,
    owner: Address,
    asset: Address,
    token_program: Seq<u8>,
    associated_program: Seq<u8>,
    first: Address,
    second: Address,
)
    requires
        holding_address_spec(owner@, asset@, token_program, associated_program) == Some(first@),
        holding_address_spec(owner@, asset@, token_program, associated_program) == Some(second@),
    ensures
        first@ == second@,
        ({
            let (l1, c1) = ensure_effect(ledger, payer, owner, asset, first);
            let (l2, c2) = ensure_effect(l1, payer, owner, asset, second);
            &&& c1 == !ledger.contains(first@)
            &&& l1.contains(first@)
            &&& !c2
            &&& l2 == l1
        }),
{
}

} // verus!
