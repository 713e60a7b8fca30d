use vstd::prelude::*;
use crate::address::{
    holding_address, holding_address_spec, membership_address_spec, Address,
};
use crate::config::Config;
use crate::payout::{build, build_spec, BuildError, Payout, ResolvedAccounts};
use crate::provision::{provision_step, provision_step_spec, HoldingAccountPlan, ProvisionStep};
use crate::records::{
    DecodeError,
    decode_hierarchy, decode_sub_ledger, decode_voucher, decoded, hierarchy_fields_of,
    sub_ledger_fields_of, voucher_fields_of, Hierarchy, MembershipModel, SubLedger, Voucher,
};
use crate::scan::{
    roots_query, roots_query_spec, sub_ledgers_query, sub_ledgers_query_spec, vouchers_query,
    vouchers_query_spec, RawAccount, ScanQuery,
};

verus! {

/// What the walk asks its driver to do next.
#[derive(Clone, Debug)]
pub enum Action {
    /// Run this scan and report the accounts with `on_scanned`, or `on_scan_failed`.
    Scan(ScanQuery),
    /// Say with `on_checked` whether this account exists on the ledger.
    CheckAccount(Address),
    /// Create this holding account and report with `on_created`.
    CreateHoldingAccount(HoldingAccountPlan),
    /// Submit this payout and report with `on_submitted`.
    Submit(Payout),
    /// Every hierarchy, sub-ledger and voucher has been visited.
    Finish,
    /// A record was passed over or a member closed: call `on_continue`.
    Continue,
    /// A scan failed: the run stops.
    Abort,
}

/// How one member's payout attempt ended.
#[derive(Clone, Copy, Debug, PartialEq, Eq)]
pub enum Outcome {
    PaidOut,
    /// An address of the member could not be derived.
    DeriveFailed,
    /// The member's membership-asset holding account could not be created.
    ProvisionFailed,
    BuildFailed(BuildError),
    SubmitFailed,
}

/// The outcome of one voucher under one sub-ledger.
#[derive(Clone, Copy, Debug, PartialEq, Eq)]
pub struct MemberReport {
    pub sub_ledger: Address,
    pub voucher: Address,
    pub outcome: Outcome,
}

#[derive(Clone, Copy, Debug, PartialEq, Eq)]
pub enum Phase {
    ScanRoots,
    ScanSubLedgers,
    ScanVouchers,
    AwaitCheck,
    AwaitCreate,
    AwaitSubmit,
    /// Between two items: the walk waits for `on_continue`.
    Walking,
    Finished,
    Aborted,
}

/// A record passed over, and why it did not decode.
#[derive(Clone, Copy, Debug, PartialEq, Eq)]
pub struct SkippedRecord {
    pub address: Address,
    pub reason: DecodeError,
}

/// The hierarchy being walked.
#[derive(Clone, Copy, Debug)]
pub struct HierarchyEntry {
    pub address: Address,
    pub record: Hierarchy,
}

/// The sub-ledger being walked.
#[derive(Clone, Copy, Debug)]
pub struct SubLedgerEntry {
    pub address: Address,
    pub record: SubLedger,
}

/// The member whose payout is in progress, with every address it needs.
#[derive(Clone, Copy, Debug)]
pub struct Member {
    pub voucher: Voucher,
    pub accounts: ResolvedAccounts,
}

/// The three-level walk: hierarchies, their sub-ledgers, and the vouchers under each
/// sub-ledger, each visited once in the order the scans returned them.
pub struct Walk {
    pub cfg: Config,
    pub phase: Phase,
    pub roots: Vec<RawAccount>,
    pub root_idx: usize,
    pub hierarchy: Option<HierarchyEntry>,
    pub subs: Vec<RawAccount>,
    pub sub_idx: usize,
    pub sub: Option<SubLedgerEntry>,
    pub vouchers: Vec<RawAccount>,
    pub voucher_idx: usize,
    pub member: Option<Member>,
    /// One report per voucher that decoded, in the order visited.
    pub reports: Vec<MemberReport>,
    /// Accounts passed over because they did not decode as the expected schema.
    pub skipped: Vec<SkippedRecord>,
}

/// The addresses of `m` are those derived for voucher `m.accounts.voucher` of hierarchy
/// `h_addr` under sub-ledger `s_addr`.
pub open spec fn member_resolved(
    cfg: Config,
    h_addr: Address,
    h: Hierarchy,
    s_addr: Address,
    s: SubLedger,
    m: Member,
) -> bool {
    let key = m.voucher.membership_key;
    let a = m.accounts;
    &&& a.fanout == h_addr
    &&& a.sub_ledger == s_addr
    &&& membership_address_spec(cfg.membership_seed@, s_addr@, key@, s.mint@, cfg.hydra_program@)
        matches Some((mv, _)) && mv == a.mint_voucher@
    &&& holding_address_spec(key@, s.mint@, cfg.token_program@, cfg.associated_token_program@)
        == Some(a.member_payout_account@)
    &&& match membership_asset(h) {
        Some(mm) => {
            &&& a.member_mint_account matches Some(x) && holding_address_spec(
                key@,
                mm@,
                cfg.token_program@,
                cfg.associated_token_program@,
            ) == Some(x@)
            &&& a.member_stake_account matches Some(y) && holding_address_spec(
                a.voucher@,
                mm@,
                cfg.token_program@,
                cfg.associated_token_program@,
            ) == Some(y@)
        },
        None => a.member_mint_account is None && a.member_stake_account is None,
    }
}

pub open spec fn awaiting(p: Phase) -> bool {
    p == Phase::AwaitCheck || p == Phase::AwaitCreate || p == Phase::AwaitSubmit
}

/// Per-run totals: members paid out, members that failed, and records passed over.
#[derive(Clone, Copy, Debug, PartialEq, Eq)]
pub struct RunSummary {
    pub paid_out: usize,
    pub failed: usize,
    pub skipped: usize,
}

pub open spec fn count_paid(s: Seq<MemberReport>) -> nat
    decreases s.len(),
{
    if s.len() == 0 {
        0
    } else {
        count_paid(s.drop_last()) + if s.last().outcome == Outcome::PaidOut { 1nat } else { 0nat }
    }
}

pub proof fn lemma_count_paid_bound(s: Seq<MemberReport>)
    ensures
        count_paid(s) <= s.len(),
    decreases s.len(),
{
    if s.len() > 0 {
        lemma_count_paid_bound(s.drop_last());
    }
}

/// The membership asset whose accounts a payout references: none for a by-wallet
/// hierarchy, whatever it names.
pub open spec fn membership_asset(h: Hierarchy) -> Option<Address> {
    if h.membership_model == MembershipModel::Wallet {
        None
    } else {
        h.membership_mint
    }
}

fn membership_asset_of(h: &Hierarchy) -> (r: Option<Address>)
    ensures
        r == membership_asset(*h),
{
    match h.membership_model {
        MembershipModel::Wallet => None,
        _ => h.membership_mint,
    }
}

pub open spec fn or_continue(r: Option<Action>) -> Action {
    match r {
        Some(a) => a,
        None => Action::Continue,
    }
}

/// Every address of the member holding voucher `addr` can be derived.
pub open spec fn derivable(cfg: Config, h: HierarchyEntry, s: SubLedgerEntry, addr: Address, v: Voucher) -> bool {
    let key = v.membership_key;
    &&& membership_address_spec(cfg.membership_seed@, s.address@, key@, s.record.mint@, cfg.hydra_program@) is Some
    &&& holding_address_spec(key@, s.record.mint@, cfg.token_program@, cfg.associated_token_program@) is Some
    &&& membership_asset(h.record) matches Some(mm) ==> {
        &&& holding_address_spec(key@, mm@, cfg.token_program@, cfg.associated_token_program@) is Some
        &&& holding_address_spec(addr@, mm@, cfg.token_program@, cfg.associated_token_program@) is Some
    }
}

/// What taking up the decoded voucher `v` at `addr` leads to, from reports `reports`: a
/// report where an address cannot be derived or the payout cannot be built, else the member
/// with its derived addresses, and a check of its membership-asset holding account where
/// the hierarchy has such an asset, or its payout.
pub open spec fn member_fate(
    cfg: Config,
    h: HierarchyEntry,
    s: SubLedgerEntry,
    addr: Address,
    v: Voucher,
    reports: Seq<MemberReport>,
    f: Walk,
    r: Action,
) -> bool {
    if !derivable(cfg, h, s, addr, v) {
        &&& r == Action::Continue
        &&& f.reports@ == reports.push(
            MemberReport { sub_ledger: s.address, voucher: addr, outcome: Outcome::DeriveFailed },
        )
    } else if h.record.membership_model == MembershipModel::Token && h.record.membership_mint is None {
        &&& r == Action::Continue
        &&& f.reports@ == reports.push(
            MemberReport {
                sub_ledger: s.address,
                voucher: addr,
                outcome: Outcome::BuildFailed(BuildError::MissingMembershipAsset),
            },
        )
    } else {
        let m = f.member->0;
        &&& f.reports@ == reports
        &&& f.member is Some
        &&& m.voucher == v
        &&& m.accounts.voucher == addr
        &&& member_resolved(cfg, h.address, h.record, s.address, s.record, m)
        &&& match membership_asset(h.record) {
            Some(_) => r == Action::CheckAccount(m.accounts.member_mint_account->0),
            None => r == Action::Submit(build_spec(cfg, h.record, s.record, v, m.accounts)->Ok_0),
        }
    }
}

/// One step of the walk from the cursor given by the arguments, ending in `f` with action
/// `r`: exactly the next voucher, else the next sub-ledger, else the next hierarchy is taken
/// up, and the walk finishes when none is left. A record that does not decode goes to
/// `skipped` and the step asks to continue; a member that cannot be prepared gets a report.
pub open spec fn step_ok(
    cfg: Config,
    hierarchy: Option<HierarchyEntry>,
    sub: Option<SubLedgerEntry>,
    roots: Seq<RawAccount>,
    root_idx: int,
    subs: Seq<RawAccount>,
    sub_idx: int,
    vouchers: Seq<RawAccount>,
    voucher_idx: int,
    reports: Seq<MemberReport>,
    skipped: Seq<SkippedRecord>,
    f: Walk,
    r: Action,
) -> bool {
    &&& f.cfg == cfg
    &&& if voucher_idx < vouchers.len() {
        let raw = vouchers[voucher_idx];
        &&& f.roots@ == roots
        &&& f.root_idx == root_idx
        &&& f.hierarchy == hierarchy
        &&& f.subs@ == subs
        &&& f.sub_idx == sub_idx
        &&& f.sub == sub
        &&& f.vouchers@ == vouchers
        &&& f.voucher_idx == voucher_idx + 1
        &&& match decoded(raw.data@, cfg.discriminants.voucher@, voucher_fields_of(raw.data@)) {
            Ok(v) => f.skipped@ == skipped && member_fate(
                cfg,
                hierarchy->0,
                sub->0,
                raw.address,
                v,
                reports,
                f,
                r,
            ),
            Err(e) => {
                &&& f.skipped@ == skipped.push(SkippedRecord { address: raw.address, reason: e })
                &&& f.reports@ == reports
                &&& r == Action::Continue
            },
        }
    } else if sub_idx < subs.len() {
        let raw = subs[sub_idx];
        &&& f.roots@ == roots
        &&& f.root_idx == root_idx
        &&& f.hierarchy == hierarchy
        &&& f.subs@ == subs
        &&& f.sub_idx == sub_idx + 1
        &&& f.vouchers@.len() == 0
        &&& f.voucher_idx == 0
        &&& f.reports@ == reports
        &&& match decoded(raw.data@, cfg.discriminants.sub_ledger@, sub_ledger_fields_of(raw.data@)) {
            Ok(s) => f.skipped@ == skipped && f.sub == Some(
                SubLedgerEntry { address: raw.address, record: s },
            ) && r == Action::Scan(vouchers_query_spec(cfg.hydra_program, hierarchy->0.address)),
            Err(e) => {
                &&& f.skipped@ == skipped.push(SkippedRecord { address: raw.address, reason: e })
                &&& f.sub == sub
                &&& r == Action::Continue
            },
        }
    } else if root_idx < roots.len() {
        let raw = roots[root_idx];
        &&& f.roots@ == roots
        &&& f.root_idx == root_idx + 1
        &&& f.subs@.len() == 0
        &&& f.sub_idx == 0
        &&& f.vouchers@.len() == 0
        &&& f.voucher_idx == 0
        &&& f.reports@ == reports
        &&& match decoded(raw.data@, cfg.discriminants.hierarchy@, hierarchy_fields_of(raw.data@)) {
            Ok(h) => f.skipped@ == skipped && f.hierarchy == Some(
                HierarchyEntry { address: raw.address, record: h },
            ) && r == Action::Scan(sub_ledgers_query_spec(cfg.hydra_program, raw.address)),
            Err(e) => {
                &&& f.skipped@ == skipped.push(SkippedRecord { address: raw.address, reason: e })
                &&& f.hierarchy == hierarchy
                &&& r == Action::Continue
            },
        }
    } else {
        &&& r == Action::Finish
        &&& f.roots@ == roots
        &&& f.root_idx == root_idx
        &&& f.subs@ == subs
        &&& f.sub_idx == sub_idx
        &&& f.vouchers@ == vouchers
        &&& f.voucher_idx == voucher_idx
        &&& f.reports@ == reports
        &&& f.skipped@ == skipped
    }
}

impl Walk {
    pub open spec fn wf(&self) -> bool {
        &&& self.root_idx <= self.roots@.len()
        &&& self.sub_idx <= self.subs@.len()
        &&& self.voucher_idx <= self.vouchers@.len()
        &&& (self.subs@.len() > 0 || self.phase == Phase::ScanSubLedgers) ==> self.hierarchy is Some
        &&& (self.vouchers@.len() > 0 || self.phase == Phase::ScanVouchers || awaiting(self.phase))
            ==> self.hierarchy is Some && self.sub is Some
        &&& awaiting(self.phase) ==> self.member_ok()
        &&& (self.phase == Phase::AwaitCheck || self.phase == Phase::AwaitCreate)
            ==> membership_asset(self.hierarchy->0.record) is Some
    }

    pub open spec fn member_ok(&self) -> bool {
        &&& self.member is Some
        &&& self.hierarchy is Some
        &&& self.sub is Some
        &&& member_resolved(
            self.cfg,
            self.hierarchy->0.address,
            self.hierarchy->0.record,
            self.sub->0.address,
            self.sub->0.record,
            self.member->0,
        )
    }

    /// Nothing is left to visit.
    pub open spec fn exhausted(&self) -> bool {
        &&& self.root_idx == self.roots@.len()
        &&& self.sub_idx == self.subs@.len()
        &&& self.voucher_idx == self.vouchers@.len()
    }

    /// The payout that the member in progress calls for.
    pub open spec fn member_payout(&self) -> Result<Payout, BuildError> {
        build_spec(self.cfg, self.hierarchy->0.record, self.sub->0.record, self.member->0.voucher, self.member->0.accounts)
    }

    /// What an action promises: a payout is submitted only where the build succeeded, for
    /// the member in progress, and the walk finishes only when nothing is left.
    pub open spec fn action_ok(&self, r: Action) -> bool {
        &&& r is Finish ==> self.exhausted() && self.phase == Phase::Finished
        &&& r matches Action::Submit(p) ==> self.phase == Phase::AwaitSubmit && self.member_payout() == Ok::<Payout, BuildError>(p)
        &&& r is CheckAccount ==> self.phase == Phase::AwaitCheck
        &&& r is CreateHoldingAccount ==> self.phase == Phase::AwaitCreate
        &&& r is Continue ==> self.phase == Phase::Walking
        &&& r matches Action::Scan(q) ==> {
            ||| self.phase == Phase::ScanSubLedgers
                && q == sub_ledgers_query_spec(self.cfg.hydra_program, self.hierarchy->0.address)
            ||| self.phase == Phase::ScanVouchers
                && q == vouchers_query_spec(self.cfg.hydra_program, self.hierarchy->0.address)
        }
        &&& !(r is Abort)
    }

    /// A walk about to scan for hierarchies; the first action is that scan.
    pub fn new(cfg: Config) -> (r: (Walk, Action))
        ensures
            r.0.wf(),
            r.0.phase == Phase::ScanRoots,
            r.0.cfg == cfg,
            r.0.reports@.len() == 0,
            r.0.skipped@.len() == 0,
            r.0.roots@.len() == 0,
            r.0.subs@.len() == 0,
            r.0.vouchers@.len() == 0,
            r.0.member is None,
            r.1 == Action::Scan(roots_query_spec(cfg.hydra_program)),
    {
        let q = roots_query(&cfg.hydra_program);
        let w = Walk {
            cfg,
            phase: Phase::ScanRoots,
            roots: Vec::new(),
            root_idx: 0,
            hierarchy: None,
            subs: Vec::new(),
            sub_idx: 0,
            sub: None,
            vouchers: Vec::new(),
            voucher_idx: 0,
            member: None,
            reports: Vec::new(),
            skipped: Vec::new(),
        };
        (w, Action::Scan(q))
    }

    fn report(&mut self, voucher: Address, outcome: Outcome)
        requires
            old(self).sub is Some,
        ensures
            final(self).reports@ == old(self).reports@.push(
                MemberReport { sub_ledger: old(self).sub->0.address, voucher, outcome },
            ),
            final(self).cfg == old(self).cfg,
            final(self).phase == old(self).phase,
            final(self).roots == old(self).roots,
            final(self).root_idx == old(self).root_idx,
            final(self).hierarchy == old(self).hierarchy,
            final(self).subs == old(self).subs,
            final(self).sub_idx == old(self).sub_idx,
            final(self).sub == old(self).sub,
            final(self).vouchers == old(self).vouchers,
            final(self).voucher_idx == old(self).voucher_idx,
            final(self).member == old(self).member,
            final(self).skipped == old(self).skipped,
            final(self).extends(old(self)),
    {
        let s = match &self.sub {
            Some(e) => e.address,
            None => Address::zero(),
        };
        self.reports.push(MemberReport { sub_ledger: s, voucher, outcome });
        assert(self.reports@.subrange(0, old(self).reports@.len() as int) =~= old(self).reports@);
    }

    /// Everything but the member in progress, the phase and the reports is as in `o`.
    pub open spec fn same_cursor(&self, o: &Walk) -> bool {
        &&& self.cfg == o.cfg
        &&& self.roots == o.roots
        &&& self.root_idx == o.root_idx
        &&& self.hierarchy == o.hierarchy
        &&& self.subs == o.subs
        &&& self.sub_idx == o.sub_idx
        &&& self.sub == o.sub
        &&& self.vouchers == o.vouchers
        &&& self.voucher_idx == o.voucher_idx
        &&& self.skipped == o.skipped
    }

    /// The reports of `o` are kept, and more may follow.
    pub open spec fn extends(&self, o: &Walk) -> bool {
        &&& o.reports@.len() <= self.reports@.len()
        &&& self.reports@.subrange(0, o.reports@.len() as int) =~= o.reports@
    }

    /// Builds the payout of member `m` and asks for its submission, or reports why it
    /// cannot be built.
    fn submit_member(&mut self, m: Member) -> (r: Option<Action>)
        requires
            old(self).wf(),
            old(self).hierarchy is Some,
            old(self).sub is Some,
            member_resolved(
                old(self).cfg,
                old(self).hierarchy->0.address,
                old(self).hierarchy->0.record,
                old(self).sub->0.address,
                old(self).sub->0.record,
                m,
            ),
        ensures
            final(self).wf(),
            final(self).same_cursor(old(self)),
            final(self).extends(old(self)),
            r matches Some(a) ==> final(self).action_ok(a) && a is Submit && final(self).member == Some(m)
                && final(self).reports == old(self).reports,
            (r is None) == (build_spec(
                old(self).cfg,
                old(self).hierarchy->0.record,
                old(self).sub->0.record,
                m.voucher,
                m.accounts,
            ) is Err),
            r is None ==> final(self).phase == old(self).phase && final(self).member == old(self).member
                && final(self).reports@ == old(self).reports@.push(MemberReport {
                    sub_ledger: old(self).sub->0.address,
                    voucher: m.accounts.voucher,
                    outcome: Outcome::BuildFailed(build_spec(
                        old(self).cfg,
                        old(self).hierarchy->0.record,
                        old(self).sub->0.record,
                        m.voucher,
                        m.accounts,
                    )->Err_0),
                }),
    {
        let h = match &self.hierarchy {
            Some(e) => e.record,
            None => return None,
        };
        let s = match &self.sub {
            Some(e) => e.record,
            None => return None,
        };
        match build(&self.cfg, &h, &s, &m.voucher, &m.accounts) {
            Ok(p) => {
                self.member = Some(m);
                self.phase = Phase::AwaitSubmit;
                Some(Action::Submit(p))
            },
            Err(e) => {
                self.report(m.accounts.voucher, Outcome::BuildFailed(e));
                None
            },
        }
    }

    /// Resolves every address of the member holding voucher `voucher_addr`, then asks for
    /// the membership-asset holding account to be checked where the hierarchy has such an
    /// asset, or goes straight to the payout. `None` after a report when that fails.
    fn start_member(&mut self, voucher_addr: Address, v: Voucher) -> (r: Option<Action>)
        requires
            old(self).wf(),
            old(self).hierarchy is Some,
            old(self).sub is Some,
        ensures
            final(self).wf(),
            final(self).same_cursor(old(self)),
            final(self).extends(old(self)),
            r matches Some(a) ==> final(self).action_ok(a),
            final(self).skipped == old(self).skipped,
            member_fate(
                old(self).cfg,
                old(self).hierarchy->0,
                old(self).sub->0,
                voucher_addr,
                v,
                old(self).reports@,
                *final(self),
                or_continue(r),
            ),
    {
        let h = match &self.hierarchy {
            Some(e) => *e,
            None => return None,
        };
        let s = match &self.sub {
            Some(e) => *e,
            None => return None,
        };
        let key = v.membership_key;
        let mint_voucher = match crate::address::derive(
            &self.cfg.membership_seed,
            &s.address,
            &key,
            &s.record.mint,
            &self.cfg.hydra_program,
        ) {
            Some((a, _)) => a,
            None => {
                self.report(voucher_addr, Outcome::DeriveFailed);
                return None;
            },
        };
        let tp = self.cfg.token_program;
        let ap = self.cfg.associated_token_program;
        let payout_account = match holding_address(&key, &s.record.mint, &tp, &ap) {
            Some(a) => a,
            None => {
                self.report(voucher_addr, Outcome::DeriveFailed);
                return None;
            },
        };
        match membership_asset_of(&h.record) {
            Some(mm) => {
                let mint_account = match holding_address(&key, &mm, &tp, &ap) {
                    Some(a) => a,
                    None => {
                        self.report(voucher_addr, Outcome::DeriveFailed);
                        return None;
                    },
                };
                let stake_account = match holding_address(&voucher_addr, &mm, &tp, &ap) {
                    Some(a) => a,
                    None => {
                        self.report(voucher_addr, Outcome::DeriveFailed);
                        return None;
                    },
                };
                let accounts = ResolvedAccounts {
                    fanout: h.address,
                    sub_ledger: s.address,
                    voucher: voucher_addr,
                    mint_voucher,
                    member_payout_account: payout_account,
                    member_mint_account: Some(mint_account),
                    member_stake_account: Some(stake_account),
                };
                self.member = Some(Member { voucher: v, accounts });
                self.phase = Phase::AwaitCheck;
                Some(Action::CheckAccount(mint_account))
            },
            None => {
                let accounts = ResolvedAccounts {
                    fanout: h.address,
                    sub_ledger: s.address,
                    voucher: voucher_addr,
                    mint_voucher,
                    member_payout_account: payout_account,
                    member_mint_account: None,
                    member_stake_account: None,
                };
                let m = Member { voucher: v, accounts };
                self.submit_member(m)
            },
        }
    }

    /// `self` and `r` are one step of the walk from `o`, with the reports of `o` extended by
    /// `reports` first.
    pub open spec fn stepped_from(&self, o: &Walk, reports: Seq<MemberReport>, r: Action) -> bool {
        step_ok(
            o.cfg,
            o.hierarchy,
            o.sub,
            o.roots@,
            o.root_idx as int,
            o.subs@,
            o.sub_idx as int,
            o.vouchers@,
            o.voucher_idx as int,
            reports,
            o.skipped@,
            *self,
            r,
        )
    }

    /// Takes up exactly the next voucher, sub-ledger or hierarchy.
    fn proceed(&mut self) -> (r: Action)
        requires
            old(self).wf(),
        ensures
            final(self).wf(),
            final(self).action_ok(r),
            final(self).stepped_from(old(self), old(self).reports@, r),
    {
        if self.voucher_idx < self.vouchers.len() {
            let i = self.voucher_idx;
            let address = self.vouchers[i].address;
            let decoded = decode_voucher(&self.vouchers[i].data, &self.cfg.discriminants.voucher);
            self.voucher_idx = i + 1;
            match decoded {
                Ok(v) => match self.start_member(address, v) {
                    Some(a) => a,
                    None => {
                        self.phase = Phase::Walking;
                        Action::Continue
                    },
                },
                Err(e) => {
                    self.skipped.push(SkippedRecord { address, reason: e });
                    self.phase = Phase::Walking;
                    Action::Continue
                },
            }
        } else if self.sub_idx < self.subs.len() {
            let i = self.sub_idx;
            let address = self.subs[i].address;
            let decoded = decode_sub_ledger(&self.subs[i].data, &self.cfg.discriminants.sub_ledger);
            self.sub_idx = i + 1;
            self.vouchers = Vec::new();
            self.voucher_idx = 0;
            match decoded {
                Ok(s) => {
                    self.sub = Some(SubLedgerEntry { address, record: s });
                    self.phase = Phase::ScanVouchers;
                    let root = match &self.hierarchy {
                        Some(e) => e.address,
                        None => Address::zero(),
                    };
                    Action::Scan(vouchers_query(&self.cfg.hydra_program, &root))
                },
                Err(e) => {
                    self.skipped.push(SkippedRecord { address, reason: e });
                    self.phase = Phase::Walking;
                    Action::Continue
                },
            }
        } else if self.root_idx < self.roots.len() {
            let i = self.root_idx;
            let address = self.roots[i].address;
            let decoded = decode_hierarchy(&self.roots[i].data, &self.cfg.discriminants.hierarchy);
            self.root_idx = i + 1;
            self.subs = Vec::new();
            self.sub_idx = 0;
            self.vouchers = Vec::new();
            self.voucher_idx = 0;
            match decoded {
                Ok(h) => {
                    self.hierarchy = Some(HierarchyEntry { address, record: h });
                    self.phase = Phase::ScanSubLedgers;
                    Action::Scan(sub_ledgers_query(&self.cfg.hydra_program, &address))
                },
                Err(e) => {
                    self.skipped.push(SkippedRecord { address, reason: e });
                    self.phase = Phase::Walking;
                    Action::Continue
                },
            }
        } else {
            self.phase = Phase::Finished;
            self.member = None;
            Action::Finish
        }
    }

    /// Goes on after a `Continue`: takes up exactly the next item.
    pub fn on_continue(&mut self) -> (r: Action)
        requires
            old(self).wf(),
            old(self).phase == Phase::Walking,
        ensures
            final(self).wf(),
            final(self).action_ok(r),
            final(self).stepped_from(old(self), old(self).reports@, r),
    {
        self.proceed()
    }

    /// Stores the accounts a scan returned as the list of its level, from the first one, and
    /// takes up exactly the next item.
    pub fn on_scanned(&mut self, accounts: Vec<RawAccount>) -> (r: Action)
        requires
            old(self).wf(),
            old(self).phase == Phase::ScanRoots || old(self).phase == Phase::ScanSubLedgers
                || old(self).phase == Phase::ScanVouchers,
        ensures
            final(self).wf(),
            final(self).action_ok(r),
            old(self).phase == Phase::ScanRoots ==> step_ok(
                old(self).cfg,
                old(self).hierarchy,
                old(self).sub,
                accounts@,
                0,
                Seq::empty(),
                0,
                Seq::empty(),
                0,
                old(self).reports@,
                old(self).skipped@,
                *final(self),
                r,
            ),
            old(self).phase == Phase::ScanSubLedgers ==> step_ok(
                old(self).cfg,
                old(self).hierarchy,
                old(self).sub,
                old(self).roots@,
                old(self).root_idx as int,
                accounts@,
                0,
                Seq::empty(),
                0,
                old(self).reports@,
                old(self).skipped@,
                *final(self),
                r,
            ),
            old(self).phase == Phase::ScanVouchers ==> step_ok(
                old(self).cfg,
                old(self).hierarchy,
                old(self).sub,
                old(self).roots@,
                old(self).root_idx as int,
                old(self).subs@,
                old(self).sub_idx as int,
                accounts@,
                0,
                old(self).reports@,
                old(self).skipped@,
                *final(self),
                r,
            ),
    {
        match self.phase {
            Phase::ScanRoots => {
                self.roots = accounts;
                self.root_idx = 0;
                self.subs = Vec::new();
                self.sub_idx = 0;
                self.vouchers = Vec::new();
                self.voucher_idx = 0;
            },
            Phase::ScanSubLedgers => {
                self.subs = accounts;
                self.sub_idx = 0;
                self.vouchers = Vec::new();
                self.voucher_idx = 0;
            },
            _ => {
                self.vouchers = accounts;
                self.voucher_idx = 0;
            },
        }
        self.member = None;
        self.proceed()
    }

    /// A scan failed: the run stops where it is.
    pub fn on_scan_failed(&mut self) -> (r: Action)
        requires
            old(self).wf(),
        ensures
            final(self).wf(),
            final(self).same_cursor(old(self)),
            final(self).reports == old(self).reports,
            final(self).phase == Phase::Aborted,
            r == Action::Abort,
    {
        self.phase = Phase::Aborted;
        self.member = None;
        Action::Abort
    }

    /// Closes the member in progress with `outcome` and takes up exactly the next item.
    fn finish_member(&mut self, outcome: Outcome) -> (r: Action)
        requires
            old(self).wf(),
            old(self).member_ok(),
        ensures
            final(self).wf(),
            final(self).action_ok(r),
            final(self).stepped_from(
                old(self),
                old(self).reports@.push(
                    MemberReport {
                        sub_ledger: old(self).sub->0.address,
                        voucher: old(self).member->0.accounts.voucher,
                        outcome,
                    },
                ),
                r,
            ),
    {
        let voucher = match &self.member {
            Some(m) => m.accounts.voucher,
            None => Address::zero(),
        };
        self.report(voucher, outcome);
        self.member = None;
        self.phase = Phase::Walking;
        self.proceed()
    }

    /// Submits the payout of the member in progress, or, where it cannot be built, closes
    /// the member and takes up the next item.
    fn pay_member(&mut self) -> (r: Action)
        requires
            old(self).wf(),
            old(self).member_ok(),
        ensures
            final(self).wf(),
            final(self).action_ok(r),
            old(self).member_payout() is Ok ==> r == Action::Submit(old(self).member_payout()->Ok_0)
                && final(self).member == old(self).member && final(self).same_cursor(old(self))
                && final(self).reports == old(self).reports,
            old(self).member_payout() is Err ==> final(self).stepped_from(
                old(self),
                old(self).reports@.push(
                    MemberReport {
                        sub_ledger: old(self).sub->0.address,
                        voucher: old(self).member->0.accounts.voucher,
                        outcome: Outcome::BuildFailed(old(self).member_payout()->Err_0),
                    },
                ),
                r,
            ),
    {
        let m = match &self.member {
            Some(m) => *m,
            None => return self.proceed(),
        };
        match self.submit_member(m) {
            Some(a) => a,
            None => {
                self.member = None;
                self.phase = Phase::Walking;
                self.proceed()
            },
        }
    }

    /// The ledger said whether the member's membership-asset holding account exists: create
    /// it if it is missing, else submit the payout.
    pub fn on_checked(&mut self, exists: bool) -> (r: Action)
        requires
            old(self).wf(),
            old(self).phase == Phase::AwaitCheck,
        ensures
            final(self).wf(),
            final(self).action_ok(r),
            !exists ==> r == Action::CreateHoldingAccount(HoldingAccountPlan {
                payer: old(self).cfg.payer,
                owner: old(self).member->0.voucher.membership_key,
                asset: membership_asset(old(self).hierarchy->0.record)->0,
                address: old(self).member->0.accounts.member_mint_account->0,
            }),
            !exists ==> holding_address_spec(
                old(self).member->0.voucher.membership_key@,
                membership_asset(old(self).hierarchy->0.record)->0@,
                old(self).cfg.token_program@,
                old(self).cfg.associated_token_program@,
            ) == Some(old(self).member->0.accounts.member_mint_account->0@),
            exists ==> r == Action::Submit(old(self).member_payout()->Ok_0),
            final(self).same_cursor(old(self)),
            final(self).reports == old(self).reports,
            final(self).member == old(self).member,
            match provision_step_spec(
                old(self).cfg.payer,
                old(self).member->0.voucher.membership_key,
                membership_asset(old(self).hierarchy->0.record)->0,
                old(self).member->0.accounts.member_mint_account->0,
                exists,
            ) {
                ProvisionStep::Create(plan) => r == Action::CreateHoldingAccount(plan),
                ProvisionStep::Reuse(_) => r == Action::Submit(old(self).member_payout()->Ok_0),
            },
    {
        let (owner, address) = match &self.member {
            Some(m) => match m.accounts.member_mint_account {
                Some(a) => (m.voucher.membership_key, a),
                None => return self.pay_member(),
            },
            None => return self.pay_member(),
        };
        let asset = match &self.hierarchy {
            Some(e) => match membership_asset_of(&e.record) {
                Some(a) => a,
                None => return self.pay_member(),
            },
            None => return self.pay_member(),
        };
        match provision_step(&self.cfg.payer, &owner, &asset, &address, exists) {
            ProvisionStep::Reuse(_) => self.pay_member(),
            ProvisionStep::Create(plan) => {
                self.phase = Phase::AwaitCreate;
                Action::CreateHoldingAccount(plan)
            },
        }
    }

    /// The creation of the member's holding account succeeded, and the payout is submitted,
    /// or it failed: that closes this member only, and the walk takes up the next item.
    pub fn on_created(&mut self, ok: bool) -> (r: Action)
        requires
            old(self).wf(),
            old(self).phase == Phase::AwaitCreate,
        ensures
            final(self).wf(),
            final(self).action_ok(r),
            ok ==> r == Action::Submit(old(self).member_payout()->Ok_0) && final(self).same_cursor(old(self))
                && final(self).reports == old(self).reports && final(self).member == old(self).member,
            !ok ==> final(self).stepped_from(
                old(self),
                old(self).reports@.push(
                    MemberReport {
                        sub_ledger: old(self).sub->0.address,
                        voucher: old(self).member->0.accounts.voucher,
                        outcome: Outcome::ProvisionFailed,
                    },
                ),
                r,
            ),
    {
        if ok {
            self.pay_member()
        } else {
            self.finish_member(Outcome::ProvisionFailed)
        }
    }

    /// The payout submission succeeded or failed; either way the member is reported and the
    /// walk takes up exactly the next item.
    pub fn on_submitted(&mut self, ok: bool) -> (r: Action)
        requires
            old(self).wf(),
            old(self).phase == Phase::AwaitSubmit,
        ensures
            final(self).wf(),
            final(self).action_ok(r),
            final(self).stepped_from(
                old(self),
                old(self).reports@.push(
                    MemberReport {
                        sub_ledger: old(self).sub->0.address,
                        voucher: old(self).member->0.accounts.voucher,
                        outcome: if ok { Outcome::PaidOut } else { Outcome::SubmitFailed },
                    },
                ),
                r,
            ),
    {
        self.finish_member(if ok { Outcome::PaidOut } else { Outcome::SubmitFailed })
    }

    /// Tallies the reports so far.
    pub fn summary(&self) -> (r: RunSummary)
        ensures
            r.paid_out == count_paid(self.reports@),
            r.paid_out + r.failed == self.reports@.len(),
            r.skipped == self.skipped@.len(),
    {
        let mut paid: usize = 0;
        let mut i: usize = 0;
        while i < self.reports.len()
            invariant
                i <= self.reports@.len(),
                paid == count_paid(self.reports@.subrange(0, i as int)),
                paid <= i,
            decreases self.reports@.len() - i,
        {
            proof {
                let s = self.reports@.subrange(0, i + 1);
                assert(s.drop_last() =~= self.reports@.subrange(0, i as int));
                lemma_count_paid_bound(self.reports@.subrange(0, i as int));
            }
            if matches!(self.reports[i].outcome, Outcome::PaidOut) {
                paid = paid + 1;
            }
            i = i + 1;
        }
        assert(self.reports@.subrange(0, i as int) =~= self.reports@);
        RunSummary { paid_out: paid, failed: self.reports.len() - paid, skipped: self.skipped.len() }
    }

}

} // verus!
