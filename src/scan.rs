use vstd::prelude::*;
use crate::address::Address;

verus! {

/// Byte size of a hierarchy record.
pub const HIERARCHY_ACCOUNT_SIZE: u64 = 300;
/// Byte size of a sub-ledger record.
pub const SUB_LEDGER_ACCOUNT_SIZE: u64 = 200;
/// Byte size of a membership voucher record.
pub const VOUCHER_ACCOUNT_SIZE: u64 = 153;
/// Byte size of a mint voucher record.
pub const MINT_VOUCHER_ACCOUNT_SIZE: u64 = 105;
/// Where a sub-ledger holds the identity of its hierarchy: after the discriminant and the mint.
pub const SUB_LEDGER_PARENT_OFFSET: u64 = 40;
/// Where a voucher holds the identity of its hierarchy: right after the discriminant.
pub const VOUCHER_PARENT_OFFSET: u64 = 8;

/// Keep only accounts whose bytes at `offset` equal `expected`.
#[derive(Clone, Copy, Debug, PartialEq, Eq)]
pub struct MemcmpFilter {
    pub offset: u64,
    pub expected: Address,
}

/// A request to list the accounts of `program` of exactly `data_size` bytes, optionally
/// narrowed by one byte-equality filter.
#[derive(Clone, Copy, Debug, PartialEq, Eq)]
pub struct ScanQuery {
    pub program: Address,
    pub data_size: u64,
    pub filter: Option<MemcmpFilter>,
}

/// One account as the scan service returns it.
#[derive(Clone, Debug)]
pub struct RawAccount {
    pub address: Address,
    pub data: Vec<u8>,
}

pub open spec fn roots_query_spec(program: Address) -> ScanQuery {
    ScanQuery { program, data_size: HIERARCHY_ACCOUNT_SIZE, filter: None }
}

pub open spec fn sub_ledgers_query_spec(program: Address, root: Address) -> ScanQuery {
    ScanQuery {
        program,
        data_size: SUB_LEDGER_ACCOUNT_SIZE,
        filter: Some(MemcmpFilter { offset: SUB_LEDGER_PARENT_OFFSET, expected: root }),
    }
}

pub open spec fn vouchers_query_spec(program: Address, root: Address) -> ScanQuery {
    ScanQuery {
        program,
        data_size: VOUCHER_ACCOUNT_SIZE,
        filter: Some(MemcmpFilter { offset: VOUCHER_PARENT_OFFSET, expected: root }),
    }
}

pub open spec fn mint_vouchers_query_spec(program: Address) -> ScanQuery {
    ScanQuery { program, data_size: MINT_VOUCHER_ACCOUNT_SIZE, filter: None }
}

/// The scan for every mint voucher of `program`.
pub fn mint_vouchers_query(program: &Address) -> (q: ScanQuery)
    ensures
        q == mint_vouchers_query_spec(*program),
{
    ScanQuery { program: *program, data_size: MINT_VOUCHER_ACCOUNT_SIZE, filter: None }
}

/// The scan for every hierarchy of `program`.
pub fn roots_query(program: &Address) -> (q: ScanQuery)
    ensures
        q == roots_query_spec(*program),
{
    ScanQuery { program: *program, data_size: HIERARCHY_ACCOUNT_SIZE, filter: None }
}

/// The scan for the sub-ledgers of hierarchy `root`.
pub fn sub_ledgers_query(program: &Address, root: &Address) -> (q: ScanQuery)
    ensures
        q == sub_ledgers_query_spec(*program, *root),
{
    ScanQuery {
        program: *program,
        data_size: SUB_LEDGER_ACCOUNT_SIZE,
        filter: Some(MemcmpFilter { offset: SUB_LEDGER_PARENT_OFFSET, expected: *root }),
    }
}

/// The scan for the membership vouchers of hierarchy `root`.
pub fn vouchers_query(program: &Address, root: &Address) -> (q: ScanQuery)
    ensures
        q == vouchers_query_spec(*program, *root),
{
    ScanQuery {
        program: *program,
        data_size: VOUCHER_ACCOUNT_SIZE,
        filter: Some(MemcmpFilter { offset: VOUCHER_PARENT_OFFSET, expected: *root }),
    }
}

} // verus!
