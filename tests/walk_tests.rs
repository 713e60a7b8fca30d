use anchor_lang::prelude::Pubkey;
use anchor_lang::{AccountSerialize, Discriminator};
use hydra_crank::address::{holding_address, Address};
use hydra_crank::config::Config;
use hydra_crank::payout::{build, BuildError, PayoutKind, ResolvedAccounts};
use hydra_crank::provision::{provision_step, HoldingAccountPlan, ProvisionStep};
use hydra_crank::records::{
    decode, decode_hierarchy, decode_sub_ledger, decode_voucher, starts_with_discriminant,
    decode_mint_voucher, DecodeError, Discriminants, Hierarchy, MembershipModel, MintVoucher, Record,
    Schema, SubLedger, Voucher,
};
use hydra_crank::scan::{
    mint_vouchers_query, roots_query, sub_ledgers_query, vouchers_query, MemcmpFilter, RawAccount,
    ScanQuery, HIERARCHY_ACCOUNT_SIZE, MINT_VOUCHER_ACCOUNT_SIZE, SUB_LEDGER_ACCOUNT_SIZE,
    VOUCHER_ACCOUNT_SIZE,
};
use hydra_crank::walk::{Action, Outcome, Walk};
use mpl_hydra::state::{Fanout, FanoutMembershipMintVoucher, FanoutMembershipVoucher, FanoutMint};
use std::collections::HashSet;

fn addr(k: &Pubkey) -> Address {
    Address { bytes: k.to_bytes() }
}

fn key(a: &Address) -> Pubkey {
    Pubkey::new_from_array(a.bytes)
}

fn discriminants() -> Discriminants {
    Discriminants {
        hierarchy: Fanout::DISCRIMINATOR,
        sub_ledger: FanoutMint::DISCRIMINATOR,
        voucher: FanoutMembershipVoucher::DISCRIMINATOR,
        mint_voucher: FanoutMembershipMintVoucher::DISCRIMINATOR,
    }
}

fn config() -> Config {
    Config {
        hydra_program: addr(&mpl_hydra::ID),
        token_program: addr(&spl_token::ID),
        associated_token_program: addr(&spl_associated_token_account::ID),
        system_program: addr(&anchor_lang::system_program::ID),
        rent_sysvar: addr(&anchor_lang::solana_program::sysvar::rent::ID),
        payer: addr(&Pubkey::new_unique()),
        membership_seed: b"fanout-membership".to_vec(),
        discriminants: discriminants(),
    }
}

fn serialize<T: AccountSerialize>(t: &T, size: usize) -> Vec<u8> {
    let mut buf: Vec<u8> = Vec::new();
    t.try_serialize(&mut buf).unwrap();
    buf.resize(size, 0);
    buf
}

fn fanout_blob(model: mpl_hydra::state::MembershipModel, mint: Option<Pubkey>) -> Vec<u8> {
    let mut f = Fanout::default();
    f.authority = Pubkey::new_unique();
    f.account_key = Pubkey::new_unique();
    f.total_members = 2;
    f.membership_model = model;
    f.membership_mint = mint;
    serialize(&f, 300)
}

fn mint_blob(fanout: &Pubkey, mint: &Pubkey, token_account: &Pubkey) -> Vec<u8> {
    let mut m = FanoutMint::default();
    m.fanout = *fanout;
    m.mint = *mint;
    m.token_account = *token_account;
    serialize(&m, 200)
}

fn voucher_blob(fanout: &Pubkey, member: &Pubkey) -> Vec<u8> {
    let mut v = FanoutMembershipVoucher::default();
    v.fanout = *fanout;
    v.membership_key = *member;
    v.shares = 10;
    v.total_inflow = 5;
    v.last_inflow = 3;
    serialize(&v, 153)
}

/// What a mock ledger saw during one walk.
struct Trace {
    submitted: Vec<hydra_crank::payout::Payout>,
    created: Vec<HoldingAccountPlan>,
    checks: usize,
    last: Action,
}

/// Runs a walk against a mock ledger holding one hierarchy with `subs` and `vouchers`.
fn drive(
    w: &mut Walk,
    first: Action,
    roots: Vec<RawAccount>,
    subs: Vec<RawAccount>,
    vouchers: Vec<RawAccount>,
    mut existing: HashSet<[u8; 32]>,
    fail_create_at: Option<usize>,
) -> Trace {
    let mut trace = Trace { submitted: vec![], created: vec![], checks: 0, last: Action::Finish };
    let mut action = first;
    let mut creations: usize = 0;
    for _ in 0..10_000 {
        action = match action {
            Action::Scan(q) => {
                let found = match q.data_size {
                    300 => roots.clone(),
                    200 => subs.clone(),
                    _ => vouchers.clone(),
                };
                w.on_scanned(found)
            }
            Action::CheckAccount(a) => {
                trace.checks += 1;
                w.on_checked(existing.contains(&a.bytes))
            }
            Action::CreateHoldingAccount(plan) => {
                let ok = fail_create_at != Some(creations);
                creations += 1;
                trace.created.push(plan);
                if ok {
                    existing.insert(plan.address.bytes);
                }
                w.on_created(ok)
            }
            Action::Submit(p) => {
                trace.submitted.push(p);
                w.on_submitted(true)
            }
            Action::Continue => w.on_continue(),
            done => {
                trace.last = done;
                return trace;
            }
        };
    }
    panic!("walk did not end");
}

#[test]
fn derive_is_deterministic() {
    let cfg = config();
    let sub = addr(&Pubkey::new_unique());
    let member = addr(&Pubkey::new_unique());
    let asset = addr(&Pubkey::new_unique());
    let a = hydra_crank::address::derive(&cfg.membership_seed, &sub, &member, &asset, &cfg.hydra_program);
    let b = hydra_crank::address::derive(&cfg.membership_seed, &sub, &member, &asset, &cfg.hydra_program);
    assert!(a.is_some());
    assert_eq!(a, b);
}

#[test]
fn derive_matches_program_address_search() {
    let cfg = config();
    let sub = Pubkey::new_unique();
    let member = Pubkey::new_unique();
    let asset = Pubkey::new_unique();
    let (expected, bump) = Pubkey::find_program_address(
        &[b"fanout-membership", sub.as_ref(), member.as_ref(), asset.as_ref()],
        &mpl_hydra::ID,
    );
    let got = hydra_crank::address::derive(&cfg.membership_seed, &addr(&sub), &addr(&member), &addr(&asset), &cfg.hydra_program);
    assert_eq!(got, Some((addr(&expected), bump)));
    assert_ne!(got.unwrap().0, addr(&sub));
}

#[test]
fn derive_differs_per_member() {
    let cfg = config();
    let sub = addr(&Pubkey::new_unique());
    let asset = addr(&Pubkey::new_unique());
    let a = hydra_crank::address::derive(&cfg.membership_seed, &sub, &addr(&Pubkey::new_unique()), &asset, &cfg.hydra_program);
    let b = hydra_crank::address::derive(&cfg.membership_seed, &sub, &addr(&Pubkey::new_unique()), &asset, &cfg.hydra_program);
    assert_ne!(a.unwrap().0, b.unwrap().0);
}

#[test]
fn derive_rejects_overlong_seed() {
    let cfg = config();
    let label = vec![7u8; 33];
    let x = addr(&Pubkey::new_unique());
    assert_eq!(hydra_crank::address::derive(&label, &x, &x, &x, &cfg.hydra_program), None);
}

#[test]
fn holding_address_is_the_associated_token_address() {
    let cfg = config();
    let owner = Pubkey::new_unique();
    let mint = Pubkey::new_unique();
    let expected = spl_associated_token_account::get_associated_token_address(&owner, &mint);
    let got = holding_address(&addr(&owner), &addr(&mint), &cfg.token_program, &cfg.associated_token_program);
    assert_eq!(got, Some(addr(&expected)));
    assert_ne!(got.unwrap(), addr(&owner));
}

#[test]
fn discriminant_check() {
    let d = discriminants();
    let blob = fanout_blob(mpl_hydra::state::MembershipModel::Wallet, None);
    assert!(starts_with_discriminant(&blob, &d.hierarchy));
    assert!(!starts_with_discriminant(&blob, &d.voucher));
    assert!(!starts_with_discriminant(&vec![1, 2, 3], &d.hierarchy));
}

#[test]
fn decodes_hierarchy_fields() {
    let d = discriminants();
    let mint = Pubkey::new_unique();
    let mut f = Fanout::default();
    f.authority = Pubkey::new_unique();
    f.account_key = Pubkey::new_unique();
    f.total_members = 4;
    f.membership_model = mpl_hydra::state::MembershipModel::Token;
    f.membership_mint = Some(mint);
    let blob = serialize(&f, 300);
    let h = decode_hierarchy(&blob, &d.hierarchy).unwrap();
    assert_eq!(
        h,
        Hierarchy {
            authority: addr(&f.authority),
            holding_account: addr(&f.account_key),
            total_members: 4,
            membership_model: MembershipModel::Token,
            membership_mint: Some(addr(&mint)),
        }
    );
}

#[test]
fn decodes_sub_ledger_and_voucher_fields() {
    let d = discriminants();
    let (fanout, mint, ta, member) =
        (Pubkey::new_unique(), Pubkey::new_unique(), Pubkey::new_unique(), Pubkey::new_unique());
    let s = decode_sub_ledger(&mint_blob(&fanout, &mint, &ta), &d.sub_ledger).unwrap();
    assert_eq!(s, SubLedger { mint: addr(&mint), fanout: addr(&fanout), token_account: addr(&ta) });
    let v = decode_voucher(&voucher_blob(&fanout, &member), &d.voucher).unwrap();
    assert_eq!(
        v,
        Voucher {
            fanout: addr(&fanout),
            total_inflow: 5,
            last_inflow: 3,
            membership_key: addr(&member),
            shares: 10,
        }
    );
}

#[test]
fn mismatched_discriminant_is_a_schema_mismatch() {
    let d = discriminants();
    let fanout = Pubkey::new_unique();
    let voucher = voucher_blob(&fanout, &Pubkey::new_unique());
    assert_eq!(decode(&voucher, Schema::Hierarchy, &d), Err(DecodeError::SchemaMismatch));
    assert_eq!(decode(&voucher, Schema::SubLedger, &d), Err(DecodeError::SchemaMismatch));
    assert!(matches!(decode(&voucher, Schema::Voucher, &d), Ok(Record::Voucher(_))));
    assert_eq!(decode(&vec![], Schema::Voucher, &d), Err(DecodeError::SchemaMismatch));
}

#[test]
fn truncated_record_is_malformed() {
    let d = discriminants();
    let mut blob = voucher_blob(&Pubkey::new_unique(), &Pubkey::new_unique());
    blob.truncate(20);
    assert_eq!(decode_voucher(&blob, &d.voucher), Err(DecodeError::Malformed));
}

#[test]
fn scan_queries() {
    let p = addr(&mpl_hydra::ID);
    let root = addr(&Pubkey::new_unique());
    assert_eq!(roots_query(&p), ScanQuery { program: p, data_size: 300, filter: None });
    assert_eq!(
        sub_ledgers_query(&p, &root),
        ScanQuery { program: p, data_size: 200, filter: Some(MemcmpFilter { offset: 40, expected: root }) }
    );
    assert_eq!(
        vouchers_query(&p, &root),
        ScanQuery { program: p, data_size: 153, filter: Some(MemcmpFilter { offset: 8, expected: root }) }
    );
}

fn sample(model: MembershipModel, mint: Option<Address>) -> (Hierarchy, SubLedger, Voucher, ResolvedAccounts) {
    let u = || addr(&Pubkey::new_unique());
    let h = Hierarchy { authority: u(), holding_account: u(), total_members: 1, membership_model: model, membership_mint: mint };
    let s = SubLedger { mint: u(), fanout: u(), token_account: u() };
    let v = Voucher { fanout: s.fanout, total_inflow: 0, last_inflow: 0, membership_key: u(), shares: 1 };
    let acc = ResolvedAccounts {
        fanout: s.fanout,
        sub_ledger: u(),
        voucher: u(),
        mint_voucher: u(),
        member_payout_account: u(),
        member_mint_account: mint.map(|_| u()),
        member_stake_account: mint.map(|_| u()),
    };
    (h, s, v, acc)
}

#[test]
fn build_wallet_payout() {
    let cfg = config();
    let (h, s, v, acc) = sample(MembershipModel::Wallet, None);
    let p = build(&cfg, &h, &s, &v, &acc).unwrap();
    assert_eq!(p.kind, PayoutKind::Wallet);
    assert!(p.distribute_for_mint);
    assert_eq!(p.accounts.holding_account, s.token_account);
    assert_eq!(p.accounts.member, v.membership_key);
    assert_eq!(p.accounts.fanout_for_mint, acc.sub_ledger);
    assert_eq!(p.accounts.fanout_for_mint_membership_voucher, acc.mint_voucher);
    assert_eq!(p.accounts.fanout_mint_member_token_account, acc.member_payout_account);
    assert_eq!(p.accounts.payer, cfg.payer);
    assert_eq!(p.accounts.token_program, cfg.token_program);
}

#[test]
fn build_token_payout() {
    let cfg = config();
    let mm = addr(&Pubkey::new_unique());
    let (h, s, v, acc) = sample(MembershipModel::Token, Some(mm));
    let p = build(&cfg, &h, &s, &v, &acc).unwrap();
    assert_eq!(
        p.kind,
        PayoutKind::Token {
            membership_mint: mm,
            membership_mint_token_account: acc.member_mint_account,
            member_stake_account: acc.member_stake_account,
        }
    );
}

#[test]
fn build_token_payout_without_membership_asset_fails() {
    let cfg = config();
    let (h, s, v, acc) = sample(MembershipModel::Token, None);
    assert_eq!(build(&cfg, &h, &s, &v, &acc), Err(BuildError::MissingMembershipAsset));
}

#[test]
fn build_nft_payout() {
    let cfg = config();
    let (h, s, v, acc) = sample(MembershipModel::Nft, None);
    let p = build(&cfg, &h, &s, &v, &acc).unwrap();
    assert_eq!(
        p.kind,
        PayoutKind::Nft { membership_mint_token_account: None, membership_key: v.membership_key }
    );
}

#[test]
fn provision_reuses_or_creates() {
    let u = || addr(&Pubkey::new_unique());
    let (payer, owner, asset, a) = (u(), u(), u(), u());
    assert_eq!(provision_step(&payer, &owner, &asset, &a, true), ProvisionStep::Reuse(a));
    assert_eq!(
        provision_step(&payer, &owner, &asset, &a, false),
        ProvisionStep::Create(HoldingAccountPlan { payer, owner, asset, address: a })
    );
}

#[test]
fn provisioning_twice_creates_once() {
    let cfg = config();
    let owner = addr(&Pubkey::new_unique());
    let asset = addr(&Pubkey::new_unique());
    let mut ledger: HashSet<[u8; 32]> = HashSet::new();
    let mut creations = 0;
    let mut addresses = vec![];
    for _ in 0..2 {
        let a = holding_address(&owner, &asset, &cfg.token_program, &cfg.associated_token_program).unwrap();
        addresses.push(a);
        match provision_step(&cfg.payer, &owner, &asset, &a, ledger.contains(&a.bytes)) {
            ProvisionStep::Create(plan) => {
                creations += 1;
                ledger.insert(plan.address.bytes);
            }
            ProvisionStep::Reuse(_) => {}
        }
    }
    assert_eq!(creations, 1);
    assert_eq!(addresses[0], addresses[1]);
}

#[test]
fn wallet_hierarchy_end_to_end() {
    let cfg = config();
    let root = Pubkey::new_unique();
    let (sub, mint, ta) = (Pubkey::new_unique(), Pubkey::new_unique(), Pubkey::new_unique());
    let (v1, v2) = (Pubkey::new_unique(), Pubkey::new_unique());
    let (m1, m2) = (Pubkey::new_unique(), Pubkey::new_unique());
    let roots = vec![RawAccount { address: addr(&root), data: fanout_blob(mpl_hydra::state::MembershipModel::Wallet, None) }];
    let subs = vec![RawAccount { address: addr(&sub), data: mint_blob(&root, &mint, &ta) }];
    let vouchers = vec![
        RawAccount { address: addr(&v1), data: voucher_blob(&root, &m1) },
        RawAccount { address: addr(&v2), data: voucher_blob(&root, &m2) },
    ];
    let (mut w, first) = Walk::new(cfg.clone());
    let t = drive(&mut w, first, roots, subs, vouchers, HashSet::new(), None);
    assert!(matches!(t.last, Action::Finish));
    assert_eq!(t.submitted.len(), 2);
    assert_eq!(t.checks, 0);
    assert!(t.created.is_empty());
    for (p, m) in t.submitted.iter().zip([m1, m2].iter()) {
        assert_eq!(p.kind, PayoutKind::Wallet);
        assert_eq!(p.accounts.holding_account, addr(&ta));
        assert_eq!(p.accounts.member, addr(m));
        assert_eq!(p.accounts.fanout, addr(&root));
        let expected_ata = spl_associated_token_account::get_associated_token_address(m, &mint);
        assert_eq!(p.accounts.fanout_mint_member_token_account, addr(&expected_ata));
        let (mv, _) = Pubkey::find_program_address(
            &[b"fanout-membership", sub.as_ref(), m.as_ref(), mint.as_ref()],
            &mpl_hydra::ID,
        );
        assert_eq!(key(&p.accounts.fanout_for_mint_membership_voucher), mv);
    }
    let s = w.summary();
    assert_eq!((s.paid_out, s.failed, s.skipped), (2, 0, 0));
}

#[test]
fn one_provisioning_failure_spares_the_others() {
    let cfg = config();
    let root = Pubkey::new_unique();
    let membership_mint = Pubkey::new_unique();
    let roots = vec![RawAccount {
        address: addr(&root),
        data: fanout_blob(mpl_hydra::state::MembershipModel::Token, Some(membership_mint)),
    }];
    let subs: Vec<RawAccount> = (0..3)
        .map(|_| RawAccount {
            address: addr(&Pubkey::new_unique()),
            data: mint_blob(&root, &Pubkey::new_unique(), &Pubkey::new_unique()),
        })
        .collect();
    let vouchers: Vec<RawAccount> = (0..3)
        .map(|_| RawAccount { address: addr(&Pubkey::new_unique()), data: voucher_blob(&root, &Pubkey::new_unique()) })
        .collect();
    let (mut w, first) = Walk::new(cfg);
    // The first creation attempt fails; the member's later visits find it missing again.
    let t = drive(&mut w, first, roots, subs, vouchers, HashSet::new(), Some(0));
    assert!(matches!(t.last, Action::Finish));
    assert_eq!(t.checks, 9);
    assert_eq!(t.submitted.len(), 8);
    let s = w.summary();
    assert_eq!((s.paid_out, s.failed), (8, 1));
    assert_eq!(w.reports[0].outcome, Outcome::ProvisionFailed);
    for p in &t.submitted {
        assert!(matches!(p.kind, PayoutKind::Token { .. }));
    }
}

#[test]
fn token_hierarchy_without_membership_asset_submits_nothing() {
    let cfg = config();
    let root = Pubkey::new_unique();
    let roots = vec![RawAccount { address: addr(&root), data: fanout_blob(mpl_hydra::state::MembershipModel::Token, None) }];
    let subs = vec![RawAccount {
        address: addr(&Pubkey::new_unique()),
        data: mint_blob(&root, &Pubkey::new_unique(), &Pubkey::new_unique()),
    }];
    let vouchers = vec![RawAccount { address: addr(&Pubkey::new_unique()), data: voucher_blob(&root, &Pubkey::new_unique()) }];
    let (mut w, first) = Walk::new(cfg);
    let t = drive(&mut w, first, roots, subs, vouchers, HashSet::new(), None);
    assert!(t.submitted.is_empty());
    assert_eq!(w.reports[0].outcome, Outcome::BuildFailed(BuildError::MissingMembershipAsset));
}

#[test]
fn foreign_records_are_skipped() {
    let cfg = config();
    let root = Pubkey::new_unique();
    let roots_first = addr(&Pubkey::new_unique());
    let roots = vec![
        RawAccount { address: roots_first, data: vec![9u8; 300] },
        RawAccount { address: addr(&root), data: fanout_blob(mpl_hydra::state::MembershipModel::Wallet, None) },
    ];
    let subs = vec![RawAccount {
        address: addr(&Pubkey::new_unique()),
        data: mint_blob(&root, &Pubkey::new_unique(), &Pubkey::new_unique()),
    }];
    let vouchers = vec![
        RawAccount { address: addr(&Pubkey::new_unique()), data: vec![0u8; 153] },
        RawAccount { address: addr(&Pubkey::new_unique()), data: voucher_blob(&root, &Pubkey::new_unique()) },
    ];
    let (mut w, first) = Walk::new(cfg);
    let t = drive(&mut w, first, roots, subs, vouchers, HashSet::new(), None);
    assert_eq!(t.submitted.len(), 1);
    assert_eq!(w.summary().skipped, 2);
    assert_eq!(w.skipped[0].reason, DecodeError::SchemaMismatch);
    assert_eq!(w.skipped[0].address, roots_first);
}

#[test]
fn scan_failure_aborts() {
    let (mut w, first) = Walk::new(config());
    assert!(matches!(first, Action::Scan(_)));
    assert!(matches!(w.on_scan_failed(), Action::Abort));
    assert!(w.reports.is_empty());
}

#[test]
fn empty_ledger_finishes_at_once() {
    let (mut w, _) = Walk::new(config());
    assert!(matches!(w.on_scanned(vec![]), Action::Finish));
    assert_eq!(w.summary().paid_out, 0);
}

#[test]
fn decodes_mint_voucher_fields() {
    let d = discriminants();
    let mut m = FanoutMembershipMintVoucher::default();
    m.fanout = Pubkey::new_unique();
    m.fanout_mint = Pubkey::new_unique();
    m.last_inflow = 77;
    m.bump_seed = 254;
    let blob = serialize(&m, 105);
    assert_eq!(
        decode_mint_voucher(&blob, &d.mint_voucher),
        Ok(MintVoucher { fanout: addr(&m.fanout), fanout_mint: addr(&m.fanout_mint), last_inflow: 77, bump_seed: 254 })
    );
    assert_eq!(decode(&blob, Schema::Voucher, &d), Err(DecodeError::SchemaMismatch));
    let p = addr(&mpl_hydra::ID);
    assert_eq!(mint_vouchers_query(&p), ScanQuery { program: p, data_size: 105, filter: None });
}

#[test]
fn record_sizes_match_the_program_layouts() {
    assert_eq!(HIERARCHY_ACCOUNT_SIZE as usize, mpl_hydra::state::FANOUT_ACCOUNT_SIZE);
    assert_eq!(VOUCHER_ACCOUNT_SIZE as usize, mpl_hydra::state::FANOUT_MEMBERSHIP_VOUCHER_SIZE);
    assert_eq!(MINT_VOUCHER_ACCOUNT_SIZE as usize, mpl_hydra::state::FANOUT_MINT_MEMBERSHIP_VOUCHER_SIZE);
    assert_eq!(SUB_LEDGER_ACCOUNT_SIZE, 200);
    // The sub-ledger's hierarchy sits after the discriminant and the mint.
    let root = Pubkey::new_unique();
    let (mint, ta) = (Pubkey::new_unique(), Pubkey::new_unique());
    let blob = mint_blob(&root, &mint, &ta);
    assert_eq!(&blob[8..40], mint.as_ref());
    assert_eq!(&blob[40..72], root.as_ref());
    assert_eq!(&blob[72..104], ta.as_ref());
    let member = Pubkey::new_unique();
    let blob = voucher_blob(&root, &member);
    assert_eq!(&blob[8..40], root.as_ref());
    assert_eq!(&blob[57..89], member.as_ref());
}

#[test]
fn creation_follows_only_a_failed_check() {
    let cfg = config();
    let root = Pubkey::new_unique();
    let membership_mint = Pubkey::new_unique();
    let member = Pubkey::new_unique();
    let roots = vec![RawAccount {
        address: addr(&root),
        data: fanout_blob(mpl_hydra::state::MembershipModel::Token, Some(membership_mint)),
    }];
    let subs = vec![RawAccount {
        address: addr(&Pubkey::new_unique()),
        data: mint_blob(&root, &Pubkey::new_unique(), &Pubkey::new_unique()),
    }];
    let vouchers = vec![RawAccount { address: addr(&Pubkey::new_unique()), data: voucher_blob(&root, &member) }];
    let ata = spl_associated_token_account::get_associated_token_address(&member, &membership_mint);
    let mut existing = HashSet::new();
    existing.insert(ata.to_bytes());
    let (mut w, first) = Walk::new(cfg.clone());
    let t = drive(&mut w, first, roots.clone(), subs.clone(), vouchers.clone(), existing, None);
    assert_eq!((t.checks, t.created.len(), t.submitted.len()), (1, 0, 1));
    let (mut w, first) = Walk::new(cfg);
    let t = drive(&mut w, first, roots, subs, vouchers, HashSet::new(), None);
    assert_eq!((t.checks, t.created.len(), t.submitted.len()), (1, 1, 1));
    assert_eq!(t.created[0].address, addr(&ata));
    match t.submitted[0].kind {
        PayoutKind::Token { membership_mint_token_account, .. } => {
            assert_eq!(membership_mint_token_account, Some(addr(&ata)))
        }
        _ => panic!("expected a token payout"),
    }
}

#[test]
fn wallet_hierarchy_ignores_a_named_membership_asset() {
    let cfg = config();
    let root = Pubkey::new_unique();
    let roots = vec![RawAccount {
        address: addr(&root),
        data: fanout_blob(mpl_hydra::state::MembershipModel::Wallet, Some(Pubkey::new_unique())),
    }];
    let subs = vec![RawAccount {
        address: addr(&Pubkey::new_unique()),
        data: mint_blob(&root, &Pubkey::new_unique(), &Pubkey::new_unique()),
    }];
    let vouchers: Vec<RawAccount> = (0..2)
        .map(|_| RawAccount { address: addr(&Pubkey::new_unique()), data: voucher_blob(&root, &Pubkey::new_unique()) })
        .collect();
    let (mut w, first) = Walk::new(cfg);
    let t = drive(&mut w, first, roots, subs, vouchers, HashSet::new(), None);
    assert_eq!((t.checks, t.created.len(), t.submitted.len()), (0, 0, 2));
    for p in &t.submitted {
        assert_eq!(p.kind, PayoutKind::Wallet);
    }
}
