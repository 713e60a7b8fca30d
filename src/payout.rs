use vstd::prelude::*;
use crate::address::Address;
use crate::config::Config;
use crate::records::{Hierarchy, MembershipModel, SubLedger, Voucher};

verus! {

/// The identities of one member's payout that the walk has resolved.
#[derive(Clone, Copy, Debug, PartialEq, Eq)]
pub struct ResolvedAccounts {
    /// The hierarchy.
    pub fanout: Address,
    /// The sub-ledger of the asset being paid out.
    pub sub_ledger: Address,
    /// The member's voucher.
    pub voucher: Address,
    /// The member's per-asset voucher, derived from sub-ledger, member and asset.
    pub mint_voucher: Address,
    /// The member's holding account for the asset being paid out.
    pub member_payout_account: Address,
    /// The member's holding account for the membership asset, where the hierarchy has one.
    pub member_mint_account: Option<Address>,
    /// The voucher's stake holding account for the membership asset, where there is one.
    pub member_stake_account: Option<Address>,
}

/// The accounts that every payout instruction references.
#[derive(Clone, Copy, Debug, PartialEq, Eq)]
pub struct DistributeAccounts {
    pub payer: Address,
    pub member: Address,
    pub membership_voucher: Address,
    pub fanout: Address,
    pub holding_account: Address,
    pub fanout_for_mint: Address,
    pub fanout_for_mint_membership_voucher: Address,
    pub fanout_mint: Address,
    pub fanout_mint_member_token_account: Address,
    pub system_program: Address,
    pub rent: Address,
    pub token_program: Address,
}

/// The instruction shape, with the accounts only that shape needs. An absent optional
/// account is sent as the default (all-zero) identity.
#[derive(Clone, Copy, Debug, PartialEq, Eq)]
pub enum PayoutKind {
    Wallet,
    Token {
        membership_mint: Address,
        membership_mint_token_account: Option<Address>,
        member_stake_account: Option<Address>,
    },
    Nft {
        membership_mint_token_account: Option<Address>,
        membership_key: Address,
    },
}

/// A fully assembled payout instruction for one member and one asset.
#[derive(Clone, Copy, Debug, PartialEq, Eq)]
pub struct Payout {
    pub accounts: DistributeAccounts,
    pub kind: PayoutKind,
    /// Pay out this asset only, not every asset of the hierarchy.
    pub distribute_for_mint: bool,
}

#[derive(Clone, Copy, Debug, PartialEq, Eq)]
pub enum BuildError {
    /// The hierarchy stakes a membership asset but names none.
    MissingMembershipAsset,
}

pub open spec fn distribute_accounts_spec(
    cfg: Config,
    sub: SubLedger,
    voucher: Voucher,
    acc: ResolvedAccounts,
) -> DistributeAccounts {
    DistributeAccounts {
        payer: cfg.payer,
        member: voucher.membership_key,
        membership_voucher: acc.voucher,
        fanout: acc.fanout,
        holding_account: sub.token_account,
        fanout_for_mint: acc.sub_ledger,
        fanout_for_mint_membership_voucher: acc.mint_voucher,
        fanout_mint: sub.mint,
        fanout_mint_member_token_account: acc.member_payout_account,
        system_program: cfg.system_program,
        rent: cfg.rent_sysvar,
        token_program: cfg.token_program,
    }
}

pub open spec fn build_spec(
    cfg: Config,
    h: Hierarchy,
    sub: SubLedger,
    voucher: Voucher,
    acc: ResolvedAccounts,
) -> Result<Payout, BuildError> {
    let accounts = distribute_accounts_spec(cfg, sub, voucher, acc);
    match h.membership_model {
        MembershipModel::Wallet => Ok(
            Payout { accounts, kind: PayoutKind::Wallet, distribute_for_mint: true },
        ),
        MembershipModel::Token => match h.membership_mint {
            Some(m) => Ok(
                Payout {
                    accounts,
                    kind: PayoutKind::Token {
                        membership_mint: m,
                        membership_mint_token_account: acc.member_mint_account,
                        member_stake_account: acc.member_stake_account,
                    },
                    distribute_for_mint: true,
                },
            ),
            None => Err(BuildError::MissingMembershipAsset),
        },
        MembershipModel::Nft => Ok(
            Payout {
                accounts,
                kind: PayoutKind::Nft {
                    membership_mint_token_account: acc.member_mint_account,
                    membership_key: voucher.membership_key,
                },
                distribute_for_mint: true,
            },
        ),
    }
}

/// Assembles the payout instruction that the hierarchy's membership model calls for.
pub fn build(
    cfg: &Config,
    h: &Hierarchy,
    sub: &SubLedger,
    voucher: &Voucher,
    acc: &ResolvedAccounts,
) -> (r: Result<Payout, BuildError>)
    ensures
        r == build_spec(*cfg, *h, *sub, *voucher, *acc),
{
    let accounts = DistributeAccounts {
        payer: cfg.payer,
        member: voucher.membership_key,
        membership_voucher: acc.voucher,
        fanout: acc.fanout,
        holding_account: sub.token_account,
        fanout_for_mint: acc.sub_ledger,
        fanout_for_mint_membership_voucher: acc.mint_voucher,
        fanout_mint: sub.mint,
        fanout_mint_member_token_account: acc.member_payout_account,
        system_program: cfg.system_program,
        rent: cfg.rent_sysvar,
        token_program: cfg.token_program,
    };
    match h.membership_model {
        MembershipModel::Wallet => Ok(
            Payout { accounts, kind: PayoutKind::Wallet, distribute_for_mint: true },
        ),
        MembershipModel::Token => match h.membership_mint {
            Some(m) => Ok(
                Payout {
                    accounts,
                    kind: PayoutKind::Token {
                        membership_mint: m,
                        membership_mint_token_account: acc.member_mint_account,
                        member_stake_account: acc.member_stake_account,
                    },
                    distribute_for_mint: true,
                },
            ),
            None => Err(BuildError::MissingMembershipAsset),
        },
        MembershipModel::Nft => Ok(
            Payout {
                accounts,
                kind: PayoutKind::Nft {
                    membership_mint_token_account: acc.member_mint_account,
                    membership_key: voucher.membership_key,
                },
                distribute_for_mint: true,
            },
        ),
    }
}

/// A hierarchy that stakes a membership asset but names none never yields a payout.
pub proof fn lemma_token_model_needs_membership_asset(
    cfg: Config,
    h: Hierarchy,
    sub: SubLedger,
    voucher: Voucher,
    acc: ResolvedAccounts,
)
    requires
        h.membership_model == MembershipModel::Token,
        h.membership_mint is None,
    ensures
        build_spec(cfg, h, sub, voucher, acc) == Err::<Payout, BuildError>(
            BuildError::MissingMembershipAsset,
        ),
{
}

/// A wallet-model payout references no membership-asset account: its shape carries none,
/// and every account it names is one of the hierarchy, the sub-ledger, the voucher, the
/// member's own payout account or the fixed programs.
pub proof fn lemma_wallet_payout_shape(
    cfg: Config,
    h: Hierarchy,
    sub: SubLedger,
    voucher: Voucher,
    acc: ResolvedAccounts,
)
    requires
        h.membership_model == MembershipModel::Wallet,
    ensures
        build_spec(cfg, h, sub, voucher, acc) matches Ok(p) && p.kind == PayoutKind::Wallet
            && p.accounts.holding_account == sub.token_account
            && p.accounts.member == voucher.membership_key,
{
}

} // verus!
