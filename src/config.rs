use vstd::prelude::*;
use crate::address::Address;
use crate::records::Discriminants;

verus! {

/// The identities and constants a run works with, handed in rather than built in so that a
/// run can target any deployment.
#[derive(Clone, Debug)]
pub struct Config {
    /// The distribution program whose accounts are walked and which executes payouts.
    pub hydra_program: Address,
    pub token_program: Address,
    pub associated_token_program: Address,
    pub system_program: Address,
    pub rent_sysvar: Address,
    /// The account that pays fees and account creation.
    pub payer: Address,
    /// The seed label of per-asset membership vouchers.
    pub membership_seed: Vec<u8>,
    pub discriminants: Discriminants,
}

} // verus!
