use vstd::prelude::*;
use anchor_lang::AccountDeserialize;
use mpl_hydra::state::{
    Fanout, FanoutMembershipMintVoucher, FanoutMembershipVoucher, FanoutMint,
    MembershipModel as HydraModel,
};
use crate::address::Address;

verus! {

/// How a hierarchy's members are defined; it decides which payout instruction is legal.
#[derive(Clone, Copy, Debug, PartialEq, Eq)]
pub enum MembershipModel {
    Wallet,
    Token,
    Nft,
}

/// The root distribution account ("fanout"), as far as the walk reads it.
#[derive(Clone, Copy, Debug, PartialEq, Eq)]
pub struct Hierarchy {
    pub authority: Address,
    pub holding_account: Address,
    pub total_members: u64,
    pub membership_model: MembershipModel,
    pub membership_mint: Option<Address>,
}

/// Accounting state of one asset distributed through a hierarchy ("fanout mint").
#[derive(Clone, Copy, Debug, PartialEq, Eq)]
pub struct SubLedger {
    pub mint: Address,
    pub fanout: Address,
    pub token_account: Address,
}

/// One member's claim within a hierarchy ("membership voucher").
#[derive(Clone, Copy, Debug, PartialEq, Eq)]
pub struct Voucher {
    pub fanout: Address,
    pub total_inflow: u64,
    pub last_inflow: u64,
    pub membership_key: Address,
    pub shares: u64,
}

/// One member's claim against one sub-ledger ("membership mint voucher").
#[derive(Clone, Copy, Debug, PartialEq, Eq)]
pub struct MintVoucher {
    pub fanout: Address,
    pub fanout_mint: Address,
    pub last_inflow: u64,
    pub bump_seed: u8,
}

/// Which record schema a blob is read as.
#[derive(Clone, Copy, Debug, PartialEq, Eq)]
pub enum Schema {
    Hierarchy,
    SubLedger,
    Voucher,
    MintVoucher,
}

/// A decoded record of one of the three schemas.
#[derive(Clone, Copy, Debug, PartialEq, Eq)]
pub enum Record {
    Hierarchy(Hierarchy),
    SubLedger(SubLedger),
    Voucher(Voucher),
    MintVoucher(MintVoucher),
}

#[derive(Clone, Copy, Debug, PartialEq, Eq)]
pub enum DecodeError {
    /// The blob does not start with the schema's discriminant.
    SchemaMismatch,
    /// The discriminant matched but the fields could not be read.
    Malformed,
}

/// The leading 8-byte discriminant of each record schema.
#[derive(Clone, Copy, Debug, PartialEq, Eq)]
pub struct Discriminants {
    pub hierarchy: [u8; 8],
    pub sub_ledger: [u8; 8],
    pub voucher: [u8; 8],
    pub mint_voucher: [u8; 8],
}

impl Discriminants {
    pub open spec fn of(self, schema: Schema) -> Seq<u8> {
        match schema {
            Schema::Hierarchy => self.hierarchy@,
            Schema::SubLedger => self.sub_ledger@,
            Schema::Voucher => self.voucher@,
            Schema::MintVoucher => self.mint_voucher@,
        }
    }
}

/// The fields that the account decoder reads from a blob that carries a hierarchy.
pub uninterp spec fn hierarchy_fields_of(data: Seq<u8>) -> Option<Hierarchy>;

/// The fields that the account decoder reads from a blob that carries a sub-ledger.
pub uninterp spec fn sub_ledger_fields_of(data: Seq<u8>) -> Option<SubLedger>;

/// The fields that the account decoder reads from a blob that carries a voucher.
pub uninterp spec fn voucher_fields_of(data: Seq<u8>) -> Option<Voucher>;

/// The fields that the account decoder reads from a blob that carries a mint voucher.
pub uninterp spec fn mint_voucher_fields_of(data: Seq<u8>) -> Option<MintVoucher>;

pub open spec fn has_discriminant(data: Seq<u8>, disc: Seq<u8>) -> bool {
    disc.len() <= data.len() && data.subrange(0, disc.len() as int) == disc
}

pub open spec fn decoded<T>(data: Seq<u8>, disc: Seq<u8>, fields: Option<T>) -> Result<T, DecodeError> {
    if !has_discriminant(data, disc) {
        Err(DecodeError::SchemaMismatch)
    } else {
        match fields {
            Some(t) => Ok(t),
            None => Err(DecodeError::Malformed),
        }
    }
}

pub open spec fn decode_spec(data: Seq<u8>, schema: Schema, discs: Discriminants) -> Result<Record, DecodeError> {
    match schema {
        Schema::Hierarchy => match decoded(data, discs.hierarchy@, hierarchy_fields_of(data)) {
            Ok(h) => Ok(Record::Hierarchy(h)),
            Err(e) => Err(e),
        },
        Schema::SubLedger => match decoded(data, discs.sub_ledger@, sub_ledger_fields_of(data)) {
            Ok(s) => Ok(Record::SubLedger(s)),
            Err(e) => Err(e),
        },
        Schema::Voucher => match decoded(data, discs.voucher@, voucher_fields_of(data)) {
            Ok(v) => Ok(Record::Voucher(v)),
            Err(e) => Err(e),
        },
        Schema::MintVoucher => match decoded(data, discs.mint_voucher@, mint_voucher_fields_of(data)) {
            Ok(v) => Ok(Record::MintVoucher(v)),
            Err(e) => Err(e),
        },
    }
}

/// Relies on the `try_deserialize` that Anchor generates for mpl_hydra's `Fanout`: it reads
/// the Borsh-encoded fields after the 8-byte discriminant, so its result depends on the bytes
/// alone.
#[verifier::external_body]
fn read_hierarchy_fields(data: &Vec<u8>) -> (r: Option<Hierarchy>)
    ensures
        r == hierarchy_fields_of(data@),
{
    let f = Fanout::try_deserialize(&mut data.as_slice()).ok()?;
    let membership_model = match f.membership_model {
        HydraModel::Wallet => MembershipModel::Wallet,
        HydraModel::Token => MembershipModel::Token,
        HydraModel::NFT => MembershipModel::Nft,
    };
    Some(Hierarchy {
        authority: Address { bytes: f.authority.to_bytes() },
        holding_account: Address { bytes: f.account_key.to_bytes() },
        total_members: f.total_members,
        membership_model,
        membership_mint: f.membership_mint.map(|k| Address { bytes: k.to_bytes() }),
    })
}

/// Relies on the `try_deserialize` that Anchor generates for mpl_hydra's `FanoutMint`: it
/// reads the Borsh-encoded fields after the discriminant, a function of the bytes alone; the
/// three keys are the 32-byte runs that follow the 8-byte discriminant.
#[verifier::external_body]
fn read_sub_ledger_fields(data: &Vec<u8>) -> (r: Option<SubLedger>)
    ensures
        r == sub_ledger_fields_of(data@),
        r matches Some(s) ==> {
            &&& 104 <= data@.len()
            &&& s.mint@ == data@.subrange(8, 40)
            &&& s.fanout@ == data@.subrange(40, 72)
            &&& s.token_account@ == data@.subrange(72, 104)
        },
{
    let m = FanoutMint::try_deserialize(&mut data.as_slice()).ok()?;
    Some(SubLedger {
        mint: Address { bytes: m.mint.to_bytes() },
        fanout: Address { bytes: m.fanout.to_bytes() },
        token_account: Address { bytes: m.token_account.to_bytes() },
    })
}

/// Relies on the `try_deserialize` that Anchor generates for mpl_hydra's
/// `FanoutMembershipVoucher`: it reads the Borsh-encoded fields after the discriminant, a
/// function of the bytes alone; `fanout` follows the discriminant, and `membership_key`
/// follows two `u64`s and a `u8`.
#[verifier::external_body]
fn read_voucher_fields(data: &Vec<u8>) -> (r: Option<Voucher>)
    ensures
        r == voucher_fields_of(data@),
        r matches Some(v) ==> {
            &&& 89 <= data@.len()
            &&& v.fanout@ == data@.subrange(8, 40)
            &&& v.membership_key@ == data@.subrange(57, 89)
        },
{
    let v = FanoutMembershipVoucher::try_deserialize(&mut data.as_slice()).ok()?;
    Some(Voucher {
        fanout: Address { bytes: v.fanout.to_bytes() },
        total_inflow: v.total_inflow,
        last_inflow: v.last_inflow,
        membership_key: Address { bytes: v.membership_key.to_bytes() },
        shares: v.shares,
    })
}

/// Relies on the `try_deserialize` that Anchor generates for mpl_hydra's
/// `FanoutMembershipMintVoucher`: it reads the Borsh-encoded fields after the discriminant, a
/// function of the bytes alone; its two keys are the 32-byte runs after the discriminant.
#[verifier::external_body]
fn read_mint_voucher_fields(data: &Vec<u8>) -> (r: Option<MintVoucher>)
    ensures
        r == mint_voucher_fields_of(data@),
        r matches Some(v) ==> {
            &&& 72 <= data@.len()
            &&& v.fanout@ == data@.subrange(8, 40)
            &&& v.fanout_mint@ == data@.subrange(40, 72)
        },
{
    let v = FanoutMembershipMintVoucher::try_deserialize(&mut data.as_slice()).ok()?;
    Some(MintVoucher {
        fanout: Address { bytes: v.fanout.to_bytes() },
        fanout_mint: Address { bytes: v.fanout_mint.to_bytes() },
        last_inflow: v.last_inflow,
        bump_seed: v.bump_seed,
    })
}

/// Whether `data` starts with the 8-byte discriminant `disc`.
pub fn starts_with_discriminant(data: &Vec<u8>, disc: &[u8; 8]) -> (r: bool)
    ensures
        r == has_discriminant(data@, disc@),
{
    if data.len() < 8 {
        return false;
    }
    let mut i: usize = 0;
    while i < 8
        invariant
            i <= 8,
            8 <= data@.len(),
            disc@.len() == 8,
            data@.subrange(0, i as int) == disc@.subrange(0, i as int),
        decreases 8 - i,
    {
        if data[i] != disc[i] {
            assert(data@.subrange(0, 8)[i as int] != disc@[i as int]);
            return false;
        }
        assert(data@.subrange(0, i + 1) =~= data@.subrange(0, i as int).push(data@[i as int]));
        assert(disc@.subrange(0, i + 1) =~= disc@.subrange(0, i as int).push(disc@[i as int]));
        i = i + 1;
    }
    assert(disc@.subrange(0, 8) =~= disc@);
    true
}

/// Reads a hierarchy record, checking its discriminant first.
pub fn decode_hierarchy(data: &Vec<u8>, disc: &[u8; 8]) -> (r: Result<Hierarchy, DecodeError>)
    ensures
        r == decoded(data@, disc@, hierarchy_fields_of(data@)),
{
    if !starts_with_discriminant(data, disc) {
        return Err(DecodeError::SchemaMismatch);
    }
    match read_hierarchy_fields(data) {
        Some(h) => Ok(h),
        None => Err(DecodeError::Malformed),
    }
}

/// Reads a sub-ledger record, checking its discriminant first.
pub fn decode_sub_ledger(data: &Vec<u8>, disc: &[u8; 8]) -> (r: Result<SubLedger, DecodeError>)
    ensures
        r == decoded(data@, disc@, sub_ledger_fields_of(data@)),
        r matches Ok(s) ==> s.mint@ == data@.subrange(8, 40) && s.fanout@ == data@.subrange(40, 72)
            && s.token_account@ == data@.subrange(72, 104),
{
    if !starts_with_discriminant(data, disc) {
        return Err(DecodeError::SchemaMismatch);
    }
    match read_sub_ledger_fields(data) {
        Some(s) => Ok(s),
        None => Err(DecodeError::Malformed),
    }
}

/// Reads a voucher record, checking its discriminant first.
pub fn decode_voucher(data: &Vec<u8>, disc: &[u8; 8]) -> (r: Result<Voucher, DecodeError>)
    ensures
        r == decoded(data@, disc@, voucher_fields_of(data@)),
        r matches Ok(v) ==> v.fanout@ == data@.subrange(8, 40) && v.membership_key@ == data@.subrange(57, 89),
{
    if !starts_with_discriminant(data, disc) {
        return Err(DecodeError::SchemaMismatch);
    }
    match read_voucher_fields(data) {
        Some(v) => Ok(v),
        None => Err(DecodeError::Malformed),
    }
}

/// Reads a mint voucher record, checking its discriminant first.
pub fn decode_mint_voucher(data: &Vec<u8>, disc: &[u8; 8]) -> (r: Result<MintVoucher, DecodeError>)
    ensures
        r == decoded(data@, disc@, mint_voucher_fields_of(data@)),
        r matches Ok(v) ==> v.fanout@ == data@.subrange(8, 40) && v.fanout_mint@ == data@.subrange(40, 72),
{
    if !starts_with_discriminant(data, disc) {
        return Err(DecodeError::SchemaMismatch);
    }
    match read_mint_voucher_fields(data) {
        Some(v) => Ok(v),
        None => Err(DecodeError::Malformed),
    }
}

/// Reads `data` as a record of `schema`.
pub fn decode(data: &Vec<u8>, schema: Schema, discs: &Discriminants) -> (r: Result<Record, DecodeError>)
    ensures
        r == decode_spec(data@, schema, *discs),
{
    match schema {
        Schema::Hierarchy => match decode_hierarchy(data, &discs.hierarchy) {
            Ok(h) => Ok(Record::Hierarchy(h)),
            Err(e) => Err(e),
        },
        Schema::SubLedger => match decode_sub_ledger(data, &discs.sub_ledger) {
            Ok(s) => Ok(Record::SubLedger(s)),
            Err(e) => Err(e),
        },
        Schema::Voucher => match decode_voucher(data, &discs.voucher) {
            Ok(v) => Ok(Record::Voucher(v)),
            Err(e) => Err(e),
        },
        Schema::MintVoucher => match decode_mint_voucher(data, &discs.mint_voucher) {
            Ok(v) => Ok(Record::MintVoucher(v)),
            Err(e) => Err(e),
        },
    }
}

/// A blob whose leading bytes are not the requested schema's discriminant always decodes
/// to a schema mismatch, never to a record.
pub proof fn lemma_schema_discrimination(data: Seq<u8>, schema: Schema, discs: Discriminants)
    requires
        !has_discriminant(data, discs.of(schema)),
    ensures
        decode_spec(data, schema, discs) == Err::<Record, DecodeError>(DecodeError::SchemaMismatch),
{
}

} // verus!
