//! The parameters store: one record per company, keyed by the company's
//! derived address, holding the last recorded staked amount.

use vstd::prelude::*;
use vstd::slice::slice_to_vec;
use crate::error::PoolError;

verus! {

/// The record kept for a company.
#[derive(Clone, Copy, Debug, PartialEq, Eq, Structural)]
pub struct Parameters {
    pub staked_amount: u64,
}

/// Whether two byte strings are equal.
pub fn same_bytes(a: &[u8], b: &[u8]) -> (r: bool)
    ensures
        r == (a@ == b@),
{
    if a.len() != b.len() {
        return false;
    }
    let mut i: usize = 0;
    while i < a.len()
        invariant
            a@.len() == b@.len(),
            0 <= i <= a@.len(),
            forall|j: int| 0 <= j < i ==> a@[j] == b@[j],
        decreases a@.len() - i,
    {
        if a[i] != b[i] {
            assert(a@[i as int] != b@[i as int]);
            return false;
        }
        i += 1;
    }
    assert(a@ =~= b@);
    true
}

/// The records of all companies of one program. Its view maps each company
/// address that has a record to the record's staked amount.
pub struct Custody {
    program_id: [u8; 32],
    addresses: Vec<Vec<u8>>,
    amounts: Vec<u64>,
    stakes: Ghost<Map<Seq<u8>, u64>>,
}

impl View for Custody {
    type V = Map<Seq<u8>, u64>;

    closed spec fn view(&self) -> Map<Seq<u8>, u64> {
        self.stakes@
    }
}

impl Custody {
    /// The program under whose id the company addresses are derived.
    pub closed spec fn program(&self) -> Seq<u8> {
        self.program_id@
    }

    /// Addresses are unique, and the two vectors agree with the view.
    pub closed spec fn wf(&self) -> bool {
        &&& self.addresses@.len() == self.amounts@.len()
        &&& forall|i: int, j: int|
            0 <= i < j < self.addresses@.len() ==> #[trigger] self.addresses@[i]@
                != #[trigger] self.addresses@[j]@
        &&& forall|i: int|
            0 <= i < self.addresses@.len() ==> {
                &&& self.stakes@.contains_key(#[trigger] self.addresses@[i]@)
                &&& self.stakes@[self.addresses@[i]@] == self.amounts@[i]
            }
        &&& forall|k: Seq<u8>|
            #[trigger] self.stakes@.contains_key(k) ==> exists|i: int|
                0 <= i < self.addresses@.len() && #[trigger] self.addresses@[i]@ == k
    }

    /// An empty store for the program `program_id`.
    pub fn new(program_id: [u8; 32]) -> (r: Custody)
        ensures
            r.wf(),
            r@ == Map::<Seq<u8>, u64>::empty(),
            r.program() == program_id@,
    {
        Custody {
            program_id,
            addresses: Vec::new(),
            amounts: Vec::new(),
            stakes: Ghost(Map::empty()),
        }
    }

    /// The program id.
    pub fn program_id(&self) -> (r: [u8; 32])
        ensures
            r@ == self.program(),
    {
        self.program_id
    }

    fn position(&self, address: &[u8]) -> (r: Option<usize>)
        requires
            self.wf(),
        ensures
            match r {
                Some(i) => i < self.addresses@.len() && self.addresses@[i as int]@ == address@,
                None => !self@.contains_key(address@),
            },
    {
        let mut i: usize = 0;
        while i < self.addresses.len()
            invariant
                self.wf(),
                0 <= i <= self.addresses@.len(),
                forall|j: int| 0 <= j < i ==> #[trigger] self.addresses@[j]@ != address@,
            decreases self.addresses@.len() - i,
        {
            if same_bytes(self.addresses[i].as_slice(), address) {
                return Some(i);
            }
            i += 1;
        }
        None
    }

    /// Whether a record exists at `address`.
    pub fn contains(&self, address: &[u8]) -> (r: bool)
        requires
            self.wf(),
        ensures
            r == self@.contains_key(address@),
    {
        self.position(address).is_some()
    }

    /// The staked amount recorded at `address`.
    pub fn staked_amount(&self, address: &[u8]) -> (r: Result<u64, PoolError>)
        requires
            self.wf(),
        ensures
            r == (if self@.contains_key(address@) {
                Ok::<u64, PoolError>(self@[address@])
            } else {
                Err(PoolError::NotInitialized)
            }),
    {
        match self.position(address) {
            Some(i) => Ok(self.amounts[i]),
            None => Err(PoolError::NotInitialized),
        }
    }

    /// The record at `address`.
    pub fn parameters(&self, address: &[u8]) -> (r: Result<Parameters, PoolError>)
        requires
            self.wf(),
        ensures
            r == (if self@.contains_key(address@) {
                Ok::<Parameters, PoolError>(Parameters { staked_amount: self@[address@] })
            } else {
                Err(PoolError::NotInitialized)
            }),
    {
        let staked_amount = self.staked_amount(address)?;
        Ok(Parameters { staked_amount })
    }

    /// Creates a zero record at `address`; refused where one exists.
    pub fn create(&mut self, address: &[u8]) -> (r: Result<(), PoolError>)
        requires
            old(self).wf(),
        ensures
            final(self).wf(),
            final(self).program() == old(self).program(),
            r == (if old(self)@.contains_key(address@) {
                Err::<(), PoolError>(PoolError::AlreadyInitialized)
            } else {
                Ok(())
            }),
            r is Ok ==> final(self)@ == old(self)@.insert(address@, 0),
            r is Err ==> final(self)@ == old(self)@,
    {
        if self.position(address).is_some() {
            return Err(PoolError::AlreadyInitialized);
        }
        let ghost before = self.addresses@;
        self.addresses.push(slice_to_vec(address));
        self.amounts.push(0);
        self.stakes = Ghost(self.stakes@.insert(address@, 0));
        proof {
            assert forall|k: Seq<u8>| #[trigger] self.stakes@.contains_key(k) implies exists|i: int|
                0 <= i < self.addresses@.len() && #[trigger] self.addresses@[i]@ == k by {
                if k == address@ {
                    assert(self.addresses@[before.len() as int]@ == k);
                } else {
                    let i = choose|i: int| 0 <= i < before.len() && #[trigger] before[i]@ == k;
                    assert(self.addresses@[i]@ == k);
                }
            }
        }
        Ok(())
    }

    /// Overwrites the staked amount at `address`; refused where no record
    /// exists.
    pub fn write(&mut self, address: &[u8], amount: u64) -> (r: Result<(), PoolError>)
        requires
            old(self).wf(),
        ensures
            final(self).wf(),
            final(self).program() == old(self).program(),
            r == (if old(self)@.contains_key(address@) {
                Ok::<(), PoolError>(())
            } else {
                Err(PoolError::NotInitialized)
            }),
            r is Ok ==> final(self)@ == old(self)@.insert(address@, amount),
            r is Err ==> final(self)@ == old(self)@,
    {
        match self.position(address) {
            None => Err(PoolError::NotInitialized),
            Some(i) => {
                let ghost before = self.addresses@;
                self.amounts.set(i, amount);
                self.stakes = Ghost(self.stakes@.insert(address@, amount));
                proof {
                    assert forall|j: int| 0 <= j < self.addresses@.len() implies {
                        &&& self.stakes@.contains_key(#[trigger] self.addresses@[j]@)
                        &&& self.stakes@[self.addresses@[j]@] == self.amounts@[j]
                    } by {
                        if j != i {
                            assert(self.addresses@[j]@ != self.addresses@[i as int]@);
                        }
                    }
                }
                Ok(())
            },
        }
    }
}

} // verus!
