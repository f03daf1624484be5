//! Canonical program-derived addresses for a company.
//!
//! An address is derived from a namespace tag, the company identifier and a
//! one-byte bump. The canonical bump is the largest bump, scanned from 255
//! down to 1, for which the derivation yields an address that no private key
//! can sign for.

use vstd::prelude::*;
use anchor_lang::solana_program::pubkey::Pubkey;

verus! {

/// Number of bytes of a company identifier.
pub const COMPANY_ID_LEN: usize = 28;

/// The namespace in which an address is derived.
#[derive(Clone, Copy, Debug, PartialEq, Eq, Structural)]
pub enum Tag {
    /// The parameters record of a company, which also controls its pool.
    Company,
    /// The custody account that holds a company's pooled tokens.
    Pool,
}

/// The seed bytes of a tag: `"company"` or `"pool"`.
pub open spec fn tag_seed(tag: Tag) -> Seq<u8> {
    match tag {
        Tag::Company => seq![99u8, 111u8, 109u8, 112u8, 97u8, 110u8, 121u8],
        Tag::Pool => seq![112u8, 111u8, 111u8, 108u8],
    }
}

/// A company identifier is accepted when it has exactly `COMPANY_ID_LEN` bytes.
pub open spec fn valid_company_id(id: Seq<u8>) -> bool {
    id.len() == COMPANY_ID_LEN
}

/// The address that `Pubkey::create_program_address` gives for `seeds` under
/// `program_id`, or `None` where it returns an error (the hash lies on the
/// curve, or a seed is too long).
pub uninterp spec fn program_address(seeds: Seq<Seq<u8>>, program_id: Seq<u8>) -> Option<Seq<u8>>;

/// The seeds of an address: tag, identifier, bump.
pub open spec fn bump_seeds(tag: Seq<u8>, id: Seq<u8>, bump: u8) -> Seq<Seq<u8>> {
    seq![tag, id, seq![bump]]
}

/// The address derived with a given bump, if that bump is viable.
pub open spec fn bump_address(tag: Seq<u8>, id: Seq<u8>, program_id: Seq<u8>, bump: u8) -> Option<Seq<u8>> {
    program_address(bump_seeds(tag, id, bump), program_id)
}

/// A bump is viable when it is not zero and yields an address.
pub open spec fn viable(tag: Seq<u8>, id: Seq<u8>, program_id: Seq<u8>, bump: u8) -> bool {
    1 <= bump && bump_address(tag, id, program_id, bump) is Some
}

/// `bump` is the canonical bump: viable, and no larger bump is.
pub open spec fn is_canonical_bump(tag: Seq<u8>, id: Seq<u8>, program_id: Seq<u8>, bump: u8) -> bool {
    &&& viable(tag, id, program_id, bump)
    &&& forall|c: u8| bump < c ==> !#[trigger] viable(tag, id, program_id, c)
}

/// The canonical address and bump, or `None` where no bump is viable.
pub open spec fn canonical(tag: Seq<u8>, id: Seq<u8>, program_id: Seq<u8>) -> Option<(Seq<u8>, u8)> {
    if exists|b: u8| is_canonical_bump(tag, id, program_id, b) {
        let b = choose|b: u8| is_canonical_bump(tag, id, program_id, b);
        Some((bump_address(tag, id, program_id, b)->0, b))
    } else {
        None
    }
}

/// Relies on `Pubkey::try_find_program_address` (off-chain branch): it tries
/// the bumps 255, 254, ..., 1 in turn with `create_program_address` on the
/// seeds followed by the bump, and returns the first address found with its
/// bump, or `None` when no bump gives one.
#[verifier::external_body]
fn find_program_address(tag: &[u8], id: &[u8], program_id: &[u8; 32]) -> (r: Option<(Vec<u8>, u8)>)
    ensures
        match r {
            Some((a, b)) => {
                &&& 1 <= b
                &&& program_address(bump_seeds(tag@, id@, b), program_id@) == Some(a@)
                &&& forall|c: u8|
                    b < c ==> #[trigger] program_address(bump_seeds(tag@, id@, c), program_id@) is None
            },
            None => forall|c: u8|
                1 <= c ==> #[trigger] program_address(bump_seeds(tag@, id@, c), program_id@) is None,
        },
{
    let program = Pubkey::new_from_array(*program_id);
    Pubkey::try_find_program_address(&[tag, id], &program).map(|(a, b)| (a.to_bytes().to_vec(), b))
}

/// A derived address with its canonical bump.
#[derive(Clone, Debug)]
pub struct DerivedAddress {
    pub address: Vec<u8>,
    pub bump: u8,
}

/// Why a derivation failed.
#[derive(Clone, Copy, Debug, PartialEq, Eq, Structural)]
pub enum DeriveError {
    /// The identifier does not have `COMPANY_ID_LEN` bytes.
    InvalidCompanyId,
    /// No bump yields an address.
    NoViableBump,
}

/// What `derive` gives, over plain values.
pub open spec fn derived(tag: Tag, id: Seq<u8>, program_id: Seq<u8>) -> Result<(Seq<u8>, u8), DeriveError> {
    if !valid_company_id(id) {
        Err(DeriveError::InvalidCompanyId)
    } else {
        match canonical(tag_seed(tag), id, program_id) {
            Some(c) => Ok(c),
            None => Err(DeriveError::NoViableBump),
        }
    }
}

/// The plain value of a derivation result.
pub open spec fn derived_view(r: Result<DerivedAddress, DeriveError>) -> Result<(Seq<u8>, u8), DeriveError> {
    match r {
        Ok(d) => Ok((d.address@, d.bump)),
        Err(e) => Err(e),
    }
}

/// The seed bytes of a tag.
pub fn tag_bytes(tag: Tag) -> (r: Vec<u8>)
    ensures
        r@ == tag_seed(tag),
{
    match tag {
        Tag::Company => vec![99u8, 111u8, 109u8, 112u8, 97u8, 110u8, 121u8],
        Tag::Pool => vec![112u8, 111u8, 111u8, 108u8],
    }
}

proof fn lemma_canonical_unique(tag: Seq<u8>, id: Seq<u8>, program_id: Seq<u8>, b: u8)
    requires
        is_canonical_bump(tag, id, program_id, b),
    ensures
        canonical(tag, id, program_id) == Some((bump_address(tag, id, program_id, b)->0, b)),
{
    let c = choose|c: u8| is_canonical_bump(tag, id, program_id, c);
    assert(is_canonical_bump(tag, id, program_id, c));
    if c < b {
        assert(!viable(tag, id, program_id, b));
    } else if b < c {
        assert(!viable(tag, id, program_id, c));
    }
}

/// Derives the address of `company_id` in the namespace `tag`, with its
/// canonical bump.
pub fn derive(tag: Tag, company_id: &[u8], program_id: &[u8; 32]) -> (r: Result<DerivedAddress, DeriveError>)
    ensures
        derived_view(r) == derived(tag, company_id@, program_id@),
{
    if company_id.len() != COMPANY_ID_LEN {
        return Err(DeriveError::InvalidCompanyId);
    }
    let seed = tag_bytes(tag);
    match find_program_address(seed.as_slice(), company_id, program_id) {
        Some((address, bump)) => {
            proof {
                lemma_canonical_unique(tag_seed(tag), company_id@, program_id@, bump);
            }
            Ok(DerivedAddress { address, bump })
        },
        None => {
            assert(!exists|b: u8| is_canonical_bump(tag_seed(tag), company_id@, program_id@, b));
            Err(DeriveError::NoViableBump)
        },
    }
}

/// Any two results of `derive` on the same tag, identifier and program are
/// equal: the derivation is a function of its inputs.
pub proof fn lemma_derive_deterministic(
    tag: Tag,
    id: Seq<u8>,
    program_id: Seq<u8>,
    r1: Result<DerivedAddress, DeriveError>,
    r2: Result<DerivedAddress, DeriveError>,
)
    requires
        derived_view(r1) == derived(tag, id, program_id),
        derived_view(r2) == derived(tag, id, program_id),
    ensures
        derived_view(r1) == derived_view(r2),
{
}

} // verus!
