//! Laws relating the operations, stated over their effects on the store.

use vstd::prelude::*;
use crate::error::{LedgerError, PoolError};
use crate::ops::{
    accounts_check, derive_both, deposit_effect, initialize_check, initialize_effect,
    transfer_decision, AddressView,
};

verus! {

/// Two stores hold the same record, or none, at `c`.
pub open spec fn agree_at(m1: Map<Seq<u8>, u64>, m2: Map<Seq<u8>, u64>, c: Seq<u8>) -> bool {
    &&& m1.contains_key(c) == m2.contains_key(c)
    &&& m1.contains_key(c) ==> m1[c] == m2[c]
}

/// Once a company is initialized, a second initialize for the same
/// identifier is refused with `AlreadyInitialized`, both at the accounts
/// check and when applied, and the store is left as the first call made it.
pub proof fn lemma_initialize_twice(m: Map<Seq<u8>, u64>, id: Seq<u8>, program_id: Seq<u8>, created: Result<(), LedgerError>)
    requires
        initialize_check(m, id, program_id) is Ok,
    ensures
        ({
            let c = initialize_check(m, id, program_id)->Ok_0.0.0;
            let (m1, r1) = initialize_effect(m, c, Ok(()));
            &&& r1 is Ok
            &&& initialize_check(m1, id, program_id) == Err::<(AddressView, AddressView), PoolError>(
                PoolError::AlreadyInitialized,
            )
            &&& initialize_effect(m1, c, created).0 == m1
            &&& initialize_effect(m1, c, created).1 is Err
            &&& created is Ok ==> initialize_effect(m1, c, created).1 == Err::<(), PoolError>(
                PoolError::AlreadyInitialized,
            )
        }),
{
}

/// Two successful deposits leave the second amount recorded, not the sum.
pub proof fn lemma_deposit_overwrites(m: Map<Seq<u8>, u64>, c: Seq<u8>, a: u64, b: u64)
    requires
        m.contains_key(c),
    ensures
        ({
            let (m1, r1) = deposit_effect(m, c, a, Ok(()));
            let (m2, r2) = deposit_effect(m1, c, b, Ok(()));
            &&& r1 is Ok
            &&& r2 is Ok
            &&& m2[c] == b
            &&& m2 == m.insert(c, b)
        }),
{
    let m1 = m.insert(c, a);
    assert(m1.insert(c, b) =~= m.insert(c, b));
}

/// A supplied base bump other than the canonical one is refused with
/// `BumpMismatch`, and so is a pool bump other than the canonical one,
/// whatever the store holds.
pub proof fn lemma_bump_tampering(m: Map<Seq<u8>, u64>, id: Seq<u8>, program_id: Seq<u8>, base_bump: u8, pool_bump: u8)
    requires
        derive_both(id, program_id) is Ok,
        base_bump != derive_both(id, program_id)->Ok_0.0.1 || pool_bump != derive_both(id, program_id)->Ok_0.1.1,
    ensures
        accounts_check(m, id, program_id, base_bump, pool_bump) == Err::<(AddressView, AddressView), PoolError>(
            PoolError::BumpMismatch,
        ),
{
}

/// A deposit whose ledger transfer failed leaves the store unchanged and
/// reports the ledger's error.
pub proof fn lemma_deposit_failure_atomic(m: Map<Seq<u8>, u64>, c: Seq<u8>, amount: u64, e: LedgerError)
    ensures
        deposit_effect(m, c, amount, Err(e)) == (m, Err::<(), PoolError>(PoolError::Ledger(e))),
{
}

/// Initialize and deposit for the company at `c` change no record at any
/// other address.
pub proof fn lemma_operations_frame(
    m: Map<Seq<u8>, u64>,
    c: Seq<u8>,
    amount: u64,
    outcome: Result<(), LedgerError>,
    k: Seq<u8>,
)
    requires
        k != c,
    ensures
        agree_at(initialize_effect(m, c, outcome).0, m, k),
        agree_at(deposit_effect(m, c, amount, outcome).0, m, k),
{
}

/// The operations for a company read only the record at its address: two
/// stores that agree there give the same checks, results and record.
pub proof fn lemma_operations_local(
    m1: Map<Seq<u8>, u64>,
    m2: Map<Seq<u8>, u64>,
    id: Seq<u8>,
    program_id: Seq<u8>,
    base_bump: u8,
    pool_bump: u8,
    amount: u64,
    outcome: Result<(), LedgerError>,
)
    requires
        derive_both(id, program_id) is Ok,
        agree_at(m1, m2, derive_both(id, program_id)->Ok_0.0.0),
    ensures
        ({
            let c = derive_both(id, program_id)->Ok_0.0.0;
            &&& initialize_check(m1, id, program_id) == initialize_check(m2, id, program_id)
            &&& accounts_check(m1, id, program_id, base_bump, pool_bump) == accounts_check(
                m2,
                id,
                program_id,
                base_bump,
                pool_bump,
            )
            &&& initialize_effect(m1, c, outcome).1 == initialize_effect(m2, c, outcome).1
            &&& agree_at(initialize_effect(m1, c, outcome).0, initialize_effect(m2, c, outcome).0, c)
            &&& deposit_effect(m1, c, amount, outcome).1 == deposit_effect(m2, c, amount, outcome).1
            &&& agree_at(deposit_effect(m1, c, amount, outcome).0, deposit_effect(m2, c, amount, outcome).0, c)
            &&& transfer_decision(m1, c, amount) == transfer_decision(m2, c, amount)
        }),
{
}

} // verus!
