use vstd::prelude::*;
use anchor_lang::prelude::Pubkey;

verus! {

/// A 32-byte ledger identity: an account, a program or an asset.
#[derive(Clone, Copy, Debug, PartialEq, Eq)]
pub struct Address {
    pub bytes: [u8; 32],
}

impl Address {
    pub open spec fn view(&self) -> Seq<u8> {
        self.bytes@
    }

    /// The all-zero identity, used where an optional account is absent.
    pub fn zero() -> (r: Address)
        ensures
            r@ == Seq::new(32, |i: int| 0u8),
    {
        let r = Address { bytes: [0u8; 32] };
        assert(r@ =~= Seq::new(32, |i: int| 0u8));
        r
    }

    pub fn to_vec(&self) -> (r: Vec<u8>)
        ensures
            r@ == self@,
    {
        let mut v: Vec<u8> = Vec::new();
        let mut i: usize = 0;
        while i < 32
            invariant
                i <= 32,
                self@.len() == 32,
                v@ == self@.subrange(0, i as int),
            decreases 32 - i,
        {
            v.push(self.bytes[i]);
            i = i + 1;
        }
        assert(v@ =~= self@);
        v
    }
}

/// What the ledger's program-address search yields for the given seeds and program:
/// the address and the bump seed, or nothing when no bump seed works or the seeds are
/// not acceptable.
pub uninterp spec fn program_address_of(seeds: Seq<Seq<u8>>, program: Seq<u8>) -> Option<(Seq<u8>, u8)>;

pub open spec fn seeds_view(seeds: Seq<Vec<u8>>) -> Seq<Seq<u8>> {
    seeds.map_values(|s: Vec<u8>| s@)
}

pub open spec fn found_view(r: Option<(Address, u8)>) -> Option<(Seq<u8>, u8)> {
    match r {
        Some((a, b)) => Some((a@, b)),
        None => None,
    }
}

/// Relies on solana_program's `Pubkey::try_find_program_address`: the bump-seed search is a
/// function of the seeds and the program identity alone, and returns `None` instead of
/// panicking when no bump seed is found or the seeds are too many or too long.
#[verifier::external_body]
fn try_find_program_address(seeds: &Vec<Vec<u8>>, program: &Address) -> (r: Option<(Address, u8)>)
    ensures
        found_view(r) == program_address_of(seeds_view(seeds@), program@),
{
    let refs: Vec<&[u8]> = seeds.iter().map(|s| s.as_slice()).collect();
    Pubkey::try_find_program_address(&refs, &Pubkey::new_from_array(program.bytes))
        .map(|(k, b)| (Address { bytes: k.to_bytes() }, b))
}

/// The seeds of the per-asset membership voucher: label, sub-ledger, member, asset.
pub open spec fn membership_seeds(
    label: Seq<u8>,
    sub_ledger: Seq<u8>,
    member: Seq<u8>,
    asset: Seq<u8>,
) -> Seq<Seq<u8>> {
    seq![label, sub_ledger, member, asset]
}

pub open spec fn membership_address_spec(
    label: Seq<u8>,
    sub_ledger: Seq<u8>,
    member: Seq<u8>,
    asset: Seq<u8>,
    program: Seq<u8>,
) -> Option<(Seq<u8>, u8)> {
    program_address_of(membership_seeds(label, sub_ledger, member, asset), program)
}

/// Derives the address and bump seed of the per-asset membership voucher of `member`
/// under `sub_ledger` for `asset`; `None` when the seeds admit no program address.
pub fn derive(
    label: &Vec<u8>,
    sub_ledger: &Address,
    member: &Address,
    asset: &Address,
    program: &Address,
) -> (r: Option<(Address, u8)>)
    ensures
        found_view(r) == membership_address_spec(label@, sub_ledger@, member@, asset@, program@),
{
    let mut seeds: Vec<Vec<u8>> = Vec::new();
    seeds.push(label.clone());
    seeds.push(sub_ledger.to_vec());
    seeds.push(member.to_vec());
    seeds.push(asset.to_vec());
    assert(seeds_view(seeds@) =~= membership_seeds(label@, sub_ledger@, member@, asset@));
    try_find_program_address(&seeds, program)
}

/// The standard associated holding account of `owner` for `asset`: the program address of
/// the associated-account program over the seeds owner, token program, asset.
pub open spec fn holding_address_spec(
    owner: Seq<u8>,
    asset: Seq<u8>,
    token_program: Seq<u8>,
    associated_program: Seq<u8>,
) -> Option<Seq<u8>> {
    match program_address_of(seq![owner, token_program, asset], associated_program) {
        Some((a, _)) => Some(a),
        None => None,
    }
}

pub open spec fn address_view(r: Option<Address>) -> Option<Seq<u8>> {
    match r {
        Some(a) => Some(a@),
        None => None,
    }
}

/// Computes the associated holding account of `owner` for `asset`.
pub fn holding_address(
    owner: &Address,
    asset: &Address,
    token_program: &Address,
    associated_program: &Address,
) -> (r: Option<Address>)
    ensures
        address_view(r) == holding_address_spec(owner@, asset@, token_program@, associated_program@),
{
    let mut seeds: Vec<Vec<u8>> = Vec::new();
    seeds.push(owner.to_vec());
    seeds.push(token_program.to_vec());
    seeds.push(asset.to_vec());
    assert(seeds_view(seeds@) =~= seq![owner@, token_program@, asset@]);
    match try_find_program_address(&seeds, associated_program) {
        Some((a, _)) => Some(a),
        None => None,
    }
}

/// Derivation is deterministic: equal inputs give equal address and bump seed, so two
/// calls of `derive` on the same identities always agree.
pub proof fn lemma_derive_deterministic(
    label1: Seq<u8>, sub1: Seq<u8>, member1: Seq<u8>, asset1: Seq<u8>, program1: Seq<u8>,
    label2: Seq<u8>, sub2: Seq<u8>, member2: Seq<u8>, asset2: Seq<u8>, program2: Seq<u8>,
)
    requires
        label1 == label2,
        sub1 == sub2,
        member1 == member2,
        asset1 == asset2,
        program1 == program2,
    ensures
        membership_address_spec(label1, sub1, member1, asset1, program1)
            == membership_address_spec(label2, sub2, member2, asset2, program2),
{
}

} // verus!
