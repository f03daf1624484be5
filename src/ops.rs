//! The three operations. Each is split in two: a check of the accounts
//! (derivations, bumps and the record's existence), and a step that applies
//! the operation's decision once the token ledger has answered for the
//! transfer or account creation it was asked to perform.

use vstd::prelude::*;
use crate::derivation::{
    derived, program_address, bump_seeds, tag_seed, DerivedAddress, DeriveError, Tag,
};
use crate::error::{LedgerError, PoolError};
use crate::store::Custody;
use vstd::slice::slice_to_vec;
use vstd::string::StringSliceAdditionalSpecFns;

verus! {

/// An address with its canonical bump, as plain values.
pub type AddressView = (Seq<u8>, u8);

/// The error of a failed derivation.
pub open spec fn derive_error(e: DeriveError) -> PoolError {
    match e {
        DeriveError::InvalidCompanyId => PoolError::InvalidCompanyId,
        DeriveError::NoViableBump => PoolError::NoViableBump,
    }
}

/// The company and pool addresses of `id`, or the first derivation error.
pub open spec fn derive_both(id: Seq<u8>, program_id: Seq<u8>) -> Result<(AddressView, AddressView), PoolError> {
    match derived(Tag::Company, id, program_id) {
        Err(e) => Err(derive_error(e)),
        Ok(c) => match derived(Tag::Pool, id, program_id) {
            Err(e) => Err(derive_error(e)),
            Ok(p) => Ok((c, p)),
        },
    }
}

/// The accounts check of initialize: both addresses derive, and no record
/// exists at the company address.
pub open spec fn initialize_check(m: Map<Seq<u8>, u64>, id: Seq<u8>, program_id: Seq<u8>) -> Result<(AddressView, AddressView), PoolError> {
    match derive_both(id, program_id) {
        Err(e) => Err(e),
        Ok((c, p)) => if m.contains_key(c.0) {
            Err(PoolError::AlreadyInitialized)
        } else {
            Ok((c, p))
        },
    }
}

/// The accounts check of deposit and transfer: both addresses derive, both
/// supplied bumps are the canonical ones, and the record exists.
pub open spec fn accounts_check(
    m: Map<Seq<u8>, u64>,
    id: Seq<u8>,
    program_id: Seq<u8>,
    base_bump: u8,
    pool_bump: u8,
) -> Result<(AddressView, AddressView), PoolError> {
    match derive_both(id, program_id) {
        Err(e) => Err(e),
        Ok((c, p)) => if c.1 != base_bump || p.1 != pool_bump {
            Err(PoolError::BumpMismatch)
        } else if !m.contains_key(c.0) {
            Err(PoolError::NotInitialized)
        } else {
            Ok((c, p))
        },
    }
}

/// The store and result after initialize, given the ledger's answer to the
/// creation of the pool account.
pub open spec fn initialize_effect(m: Map<Seq<u8>, u64>, company: Seq<u8>, created: Result<(), LedgerError>) -> (Map<Seq<u8>, u64>, Result<(), PoolError>) {
    match created {
        Err(e) => (m, Err(PoolError::Ledger(e))),
        Ok(_) => if m.contains_key(company) {
            (m, Err(PoolError::AlreadyInitialized))
        } else {
            (m.insert(company, 0), Ok(()))
        },
    }
}

/// The store and result after deposit, given the ledger's answer to the
/// transfer into the pool: the amount overwrites the record.
pub open spec fn deposit_effect(m: Map<Seq<u8>, u64>, company: Seq<u8>, amount: u64, moved: Result<(), LedgerError>) -> (Map<Seq<u8>, u64>, Result<(), PoolError>) {
    match moved {
        Err(e) => (m, Err(PoolError::Ledger(e))),
        Ok(_) => if m.contains_key(company) {
            (m.insert(company, amount), Ok(()))
        } else {
            (m, Err(PoolError::NotInitialized))
        },
    }
}

/// The decision of transfer: `Some(amount)` to move `amount` out of the
/// pool, `None` when the guard `amount < staked_amount` fails.
pub open spec fn transfer_decision(m: Map<Seq<u8>, u64>, company: Seq<u8>, amount: u64) -> Result<Option<u64>, PoolError> {
    if !m.contains_key(company) {
        Err(PoolError::NotInitialized)
    } else if amount < m[company] {
        Ok(Some(amount))
    } else {
        Ok(None)
    }
}

fn derive_both_exec(company_id: &[u8], program_id: &[u8; 32]) -> (r: Result<(DerivedAddress, DerivedAddress), PoolError>)
    ensures
        match r {
            Ok((c, p)) => derive_both(company_id@, program_id@) == Ok::<(AddressView, AddressView), PoolError>(
                ((c.address@, c.bump), (p.address@, p.bump)),
            ),
            Err(e) => derive_both(company_id@, program_id@) == Err::<(AddressView, AddressView), PoolError>(e),
        },
{
    let company = match crate::derivation::derive(Tag::Company, company_id, program_id) {
        Ok(d) => d,
        Err(DeriveError::InvalidCompanyId) => return Err(PoolError::InvalidCompanyId),
        Err(DeriveError::NoViableBump) => return Err(PoolError::NoViableBump),
    };
    let pool = match crate::derivation::derive(Tag::Pool, company_id, program_id) {
        Ok(d) => d,
        Err(DeriveError::InvalidCompanyId) => return Err(PoolError::InvalidCompanyId),
        Err(DeriveError::NoViableBump) => return Err(PoolError::NoViableBump),
    };
    Ok((company, pool))
}

/// The checked accounts of initialize.
pub struct Initialize {
    company: DerivedAddress,
    pool: DerivedAddress,
}

impl Initialize {
    /// The company address and its bump.
    pub closed spec fn company_view(&self) -> AddressView {
        (self.company.address@, self.company.bump)
    }

    /// The pool address and its bump.
    pub closed spec fn pool_view(&self) -> AddressView {
        (self.pool.address@, self.pool.bump)
    }

    /// Checks the accounts of initialize for `company_id`.
    pub fn accounts(custody: &Custody, company_id: &str) -> (r: Result<Initialize, PoolError>)
        requires
            custody.wf(),
        ensures
            match r {
                Ok(ctx) => initialize_check(custody@, company_id.spec_bytes(), custody.program())
                    == Ok::<(AddressView, AddressView), PoolError>((ctx.company_view(), ctx.pool_view())),
                Err(e) => initialize_check(custody@, company_id.spec_bytes(), custody.program())
                    == Err::<(AddressView, AddressView), PoolError>(e),
            },
    {
        let program_id = custody.program_id();
        let (company, pool) = derive_both_exec(company_id.as_bytes(), &program_id)?;
        if custody.contains(company.address.as_slice()) {
            return Err(PoolError::AlreadyInitialized);
        }
        Ok(Initialize { company, pool })
    }

    /// The parameters record to create, which is also the pool's authority.
    pub fn company(&self) -> (r: &DerivedAddress)
        ensures
            (r.address@, r.bump) == self.company_view(),
    {
        &self.company
    }

    /// The pool custody account to create.
    pub fn pool(&self) -> (r: &DerivedAddress)
        ensures
            (r.address@, r.bump) == self.pool_view(),
    {
        &self.pool
    }
}

/// Records a company once the ledger has answered for the creation of its
/// pool account: a zero record is created at the company address.
pub fn initialize(custody: &mut Custody, ctx: &Initialize, created: Result<(), LedgerError>) -> (r: Result<(), PoolError>)
    requires
        old(custody).wf(),
    ensures
        final(custody).wf(),
        final(custody).program() == old(custody).program(),
        (final(custody)@, r) == initialize_effect(old(custody)@, ctx.company_view().0, created),
{
    match created {
        Err(e) => Err(PoolError::Ledger(e)),
        Ok(()) => custody.create(ctx.company.address.as_slice()),
    }
}

fn check_bumps(
    custody: &Custody,
    company_id: &[u8],
    base_bump: u8,
    pool_bump: u8,
) -> (r: Result<(DerivedAddress, DerivedAddress), PoolError>)
    requires
        custody.wf(),
    ensures
        match r {
            Ok((c, p)) => accounts_check(custody@, company_id@, custody.program(), base_bump, pool_bump)
                == Ok::<(AddressView, AddressView), PoolError>(((c.address@, c.bump), (p.address@, p.bump))),
            Err(e) => accounts_check(custody@, company_id@, custody.program(), base_bump, pool_bump)
                == Err::<(AddressView, AddressView), PoolError>(e),
        },
{
    let program_id = custody.program_id();
    let (company, pool) = derive_both_exec(company_id, &program_id)?;
    if company.bump != base_bump || pool.bump != pool_bump {
        return Err(PoolError::BumpMismatch);
    }
    if !custody.contains(company.address.as_slice()) {
        return Err(PoolError::NotInitialized);
    }
    Ok((company, pool))
}

/// The checked accounts of deposit.
pub struct Deposit {
    company: DerivedAddress,
    pool: DerivedAddress,
}

impl Deposit {
    /// The company address and its bump.
    pub closed spec fn company_view(&self) -> AddressView {
        (self.company.address@, self.company.bump)
    }

    /// The pool address and its bump.
    pub closed spec fn pool_view(&self) -> AddressView {
        (self.pool.address@, self.pool.bump)
    }

    /// Checks the accounts of a deposit for `company_id` with the supplied
    /// bumps.
    pub fn accounts(custody: &Custody, company_id: &str, base_bump: u8, pool_bump: u8) -> (r: Result<Deposit, PoolError>)
        requires
            custody.wf(),
        ensures
            match r {
                Ok(ctx) => accounts_check(custody@, company_id.spec_bytes(), custody.program(), base_bump, pool_bump)
                    == Ok::<(AddressView, AddressView), PoolError>((ctx.company_view(), ctx.pool_view())),
                Err(e) => accounts_check(custody@, company_id.spec_bytes(), custody.program(), base_bump, pool_bump)
                    == Err::<(AddressView, AddressView), PoolError>(e),
            },
    {
        let (company, pool) = check_bumps(custody, company_id.as_bytes(), base_bump, pool_bump)?;
        Ok(Deposit { company, pool })
    }

    /// The company's parameters record.
    pub fn company(&self) -> (r: &DerivedAddress)
        ensures
            (r.address@, r.bump) == self.company_view(),
    {
        &self.company
    }

    /// The pool custody account that receives the deposit.
    pub fn pool(&self) -> (r: &DerivedAddress)
        ensures
            (r.address@, r.bump) == self.pool_view(),
    {
        &self.pool
    }
}

/// Applies a deposit of `amount` once the ledger has answered for the
/// transfer from the depositor's wallet into the pool. On success the record
/// is overwritten with `amount`; on a ledger failure nothing changes.
pub fn deposit(custody: &mut Custody, ctx: &Deposit, amount: u64, moved: Result<(), LedgerError>) -> (r: Result<(), PoolError>)
    requires
        old(custody).wf(),
    ensures
        final(custody).wf(),
        final(custody).program() == old(custody).program(),
        (final(custody)@, r) == deposit_effect(old(custody)@, ctx.company_view().0, amount, moved),
{
    match moved {
        Err(e) => Err(PoolError::Ledger(e)),
        Ok(()) => custody.write(ctx.company.address.as_slice(), amount),
    }
}

/// The checked accounts of a transfer out of the pool.
pub struct TransferAmount {
    company: DerivedAddress,
    pool: DerivedAddress,
    company_id: Vec<u8>,
    program_id: [u8; 32],
}

impl TransferAmount {
    /// The company address and its bump.
    pub closed spec fn company_view(&self) -> AddressView {
        (self.company.address@, self.company.bump)
    }

    /// The pool address and its bump.
    pub closed spec fn pool_view(&self) -> AddressView {
        (self.pool.address@, self.pool.bump)
    }

    /// The company identifier.
    pub closed spec fn id_view(&self) -> Seq<u8> {
        self.company_id@
    }

    /// The program under which the addresses were derived.
    pub closed spec fn program_view(&self) -> Seq<u8> {
        self.program_id@
    }

    /// The company address is the canonical derivation of the identifier.
    pub open spec fn wf(&self) -> bool {
        derived(Tag::Company, self.id_view(), self.program_view()) == Ok::<AddressView, DeriveError>(
            self.company_view(),
        )
    }

    /// Checks the accounts of a transfer for `company_id` with the supplied
    /// bumps.
    pub fn accounts(custody: &Custody, company_id: &str, base_bump: u8, pool_bump: u8) -> (r: Result<TransferAmount, PoolError>)
        requires
            custody.wf(),
        ensures
            match r {
                Ok(ctx) => {
                    &&& accounts_check(custody@, company_id.spec_bytes(), custody.program(), base_bump, pool_bump)
                        == Ok::<(AddressView, AddressView), PoolError>((ctx.company_view(), ctx.pool_view()))
                    &&& ctx.id_view() == company_id.spec_bytes()
                    &&& ctx.program_view() == custody.program()
                    &&& ctx.wf()
                },
                Err(e) => accounts_check(custody@, company_id.spec_bytes(), custody.program(), base_bump, pool_bump)
                    == Err::<(AddressView, AddressView), PoolError>(e),
            },
    {
        let id = company_id.as_bytes();
        let (company, pool) = check_bumps(custody, id, base_bump, pool_bump)?;
        Ok(TransferAmount { company, pool, company_id: slice_to_vec(id), program_id: custody.program_id() })
    }

    /// The company's parameters record, the pool's authority.
    pub fn company(&self) -> (r: &DerivedAddress)
        ensures
            (r.address@, r.bump) == self.company_view(),
    {
        &self.company
    }

    /// The pool custody account that pays out.
    pub fn pool(&self) -> (r: &DerivedAddress)
        ensures
            (r.address@, r.bump) == self.pool_view(),
    {
        &self.pool
    }
}

/// A transfer out of the pool to be performed by the ledger. It is signed for
/// the authority by the seeds `(tag, company_id, bump)`, which derive the
/// authority's address.
#[derive(Clone, Debug)]
pub struct Payout {
    /// The pool custody account that is debited.
    pub pool: Vec<u8>,
    /// The pool's authority: the company's parameters record.
    pub authority: Vec<u8>,
    /// The tag seed of the authority.
    pub tag: Vec<u8>,
    /// The company identifier seed.
    pub company_id: Vec<u8>,
    /// The canonical bump of the authority.
    pub bump: u8,
    /// The number of tokens to move.
    pub amount: u64,
}

impl Payout {
    /// The signer seeds, bump included.
    pub open spec fn seeds(&self) -> Seq<Seq<u8>> {
        bump_seeds(self.tag@, self.company_id@, self.bump)
    }
}

/// What a transfer decided.
#[derive(Clone, Debug)]
pub enum Disbursement {
    /// The guard passed: the payout is to be performed.
    Moved(Payout),
    /// The guard failed: nothing moves and nothing changes.
    Rejected { staked_amount: u64 },
}

impl Disbursement {
    /// The number of tokens that the decision moves.
    pub fn amount_moved(&self) -> (r: u64)
        ensures
            r == match self {
                Disbursement::Moved(p) => p.amount,
                Disbursement::Rejected { .. } => 0,
            },
    {
        match self {
            Disbursement::Moved(p) => p.amount,
            Disbursement::Rejected { .. } => 0,
        }
    }
}

/// Decides a transfer of `amount` out of the pool: it moves only when
/// `amount` is strictly below the recorded staked amount, and it changes no
/// record either way.
pub fn transfer(custody: &Custody, ctx: &TransferAmount, amount: u64) -> (r: Result<Disbursement, PoolError>)
    requires
        custody.wf(),
        ctx.wf(),
    ensures
        match r {
            Ok(Disbursement::Moved(p)) => {
                &&& transfer_decision(custody@, ctx.company_view().0, amount) == Ok::<Option<u64>, PoolError>(Some(amount))
                &&& p.amount == amount
                &&& p.pool@ == ctx.pool_view().0
                &&& p.authority@ == ctx.company_view().0
                &&& p.tag@ == tag_seed(Tag::Company)
                &&& p.company_id@ == ctx.id_view()
                &&& p.bump == ctx.company_view().1
                &&& program_address(p.seeds(), ctx.program_view()) == Some(p.authority@)
            },
            Ok(Disbursement::Rejected { staked_amount }) => {
                &&& transfer_decision(custody@, ctx.company_view().0, amount) == Ok::<Option<u64>, PoolError>(None)
                &&& staked_amount == custody@[ctx.company_view().0]
            },
            Err(e) => transfer_decision(custody@, ctx.company_view().0, amount) == Err::<Option<u64>, PoolError>(e),
        },
{
    let staked = custody.staked_amount(ctx.company.address.as_slice())?;
    if amount < staked {
        proof {
            let tag = tag_seed(Tag::Company);
            let b = choose|b: u8| crate::derivation::is_canonical_bump(tag, ctx.id_view(), ctx.program_view(), b);
            assert(crate::derivation::is_canonical_bump(tag, ctx.id_view(), ctx.program_view(), b));
        }
        let payout = Payout {
            pool: slice_to_vec(ctx.pool.address.as_slice()),
            authority: slice_to_vec(ctx.company.address.as_slice()),
            tag: crate::derivation::tag_bytes(Tag::Company),
            company_id: slice_to_vec(ctx.company_id.as_slice()),
            bump: ctx.company.bump,
            amount,
        };
        Ok(Disbursement::Moved(payout))
    } else {
        Ok(Disbursement::Rejected { staked_amount: staked })
    }
}

} // verus!
