use vstd::prelude::*;

use crate::addr::{copy_bytes, Address};
use crate::error::ErrorCode;

verus! {

/// The program-derived address obtained from the given seeds under the given
/// owning program, or `None` where the derivation falls on the curve and is
/// therefore invalid. A function of the seeds and program bytes alone;
/// nothing here states what its value is.
pub uninterp spec fn pda_of(seeds: Seq<Seq<u8>>, program_id: Seq<u8>) -> Option<Seq<u8>>;

/// The byte sequences held by a list of seed vectors.
pub open spec fn seeds_view(seeds: Seq<Vec<u8>>) -> Seq<Seq<u8>> {
    seeds.map_values(|s: Vec<u8>| s@)
}

/// The seed list extended with a one-byte disambiguation seed.
pub open spec fn with_bump(seeds: Seq<Seq<u8>>, bump: u8) -> Seq<Seq<u8>> {
    seeds.push(seq![bump])
}

/// The canonical derivation reached by searching disambiguation values
/// downward from `from`: the first value whose derivation is valid, paired
/// with the address it yields.
pub open spec fn canonical_from(seeds: Seq<Seq<u8>>, program_id: Seq<u8>, from: int) -> Option<
    (Seq<u8>, u8),
>
    decreases from + 1 when from >= -1
{
    if from < 0 {
        None
    } else {
        match pda_of(with_bump(seeds, from as u8), program_id) {
            Some(a) => Some((a, from as u8)),
            None => canonical_from(seeds, program_id, from - 1),
        }
    }
}

/// The canonical derivation for the given seeds: the highest disambiguation
/// value in `0..=255` whose derivation is valid, with its address.
pub open spec fn canonical_pda(seeds: Seq<Seq<u8>>, program_id: Seq<u8>) -> Option<(Seq<u8>, u8)> {
    canonical_from(seeds, program_id, 255)
}

/// Relies on solana_program::pubkey::Pubkey::create_program_address: the
/// derived address for the given seeds and owning program, a function of
/// those bytes alone; it is refused (only) where the derivation falls on
/// the curve. The seed-count and seed-length limits of that function are
/// kept out by `requires`.
#[verifier::external_body]
fn create_program_address(seeds: &Vec<Vec<u8>>, program_id: &Address) -> (r: Option<Address>)
    requires
        program_id.wf(),
        seeds@.len() <= 16,
        forall|i: int| 0 <= i < seeds@.len() ==> (#[trigger] seeds@[i])@.len() <= 32,
    ensures
        match r {
            Some(a) => a.wf() && pda_of(seeds_view(seeds@), program_id@) == Some(a@),
            None => pda_of(seeds_view(seeds@), program_id@) is None,
        },
{
    let seed_refs: Vec<&[u8]> = seeds.iter().map(|s| s.as_slice()).collect();
    let pid = solana_program::pubkey::Pubkey::try_from(program_id.bytes.as_slice()).unwrap();
    match solana_program::pubkey::Pubkey::create_program_address(&seed_refs, &pid) {
        Ok(a) => Some(Address { bytes: a.to_bytes().to_vec() }),
        Err(_) => None,
    }
}

/// Searches disambiguation values from 255 downward and returns the first
/// valid derivation: the canonical address and bump for these seeds, or
/// `None` where no value in the search range yields a valid address.
pub fn find_program_address(seeds: &Vec<Vec<u8>>, program_id: &Address) -> (r: Option<
    (Address, u8),
>)
    requires
        program_id.wf(),
        seeds@.len() <= 15,
        forall|i: int| 0 <= i < seeds@.len() ==> (#[trigger] seeds@[i])@.len() <= 32,
    ensures
        match r {
            Some(p) => p.0.wf() && canonical_pda(seeds_view(seeds@), program_id@) == Some(
                (p.0@, p.1),
            ),
            None => canonical_pda(seeds_view(seeds@), program_id@) is None,
        },
{
    let ghost sv = seeds_view(seeds@);
    let mut i: usize = 0;
    while i < 256
        invariant
            i <= 256,
            program_id.wf(),
            seeds@.len() <= 15,
            forall|k: int| 0 <= k < seeds@.len() ==> (#[trigger] seeds@[k])@.len() <= 32,
            sv == seeds_view(seeds@),
            canonical_pda(sv, program_id@) == canonical_from(sv, program_id@, 255 - i),
        decreases 256 - i,
    {
        let bump: u8 = (255 - i) as u8;
        let candidate = push_bump(seeds, bump);
        match create_program_address(&candidate, program_id) {
            Some(a) => {
                proof {
                    assert(canonical_from(sv, program_id@, 255 - i) == Some((a@, bump)));
                }
                return Some((a, bump));
            },
            None => {
                proof {
                    assert(canonical_from(sv, program_id@, 255 - i) == canonical_from(
                        sv,
                        program_id@,
                        255 - i - 1,
                    ));
                }
            },
        }
        i += 1;
    }
    None
}

/// The seed list extended with a one-byte disambiguation seed, as vectors.
fn push_bump(seeds: &Vec<Vec<u8>>, bump: u8) -> (r: Vec<Vec<u8>>)
    ensures
        seeds_view(r@) == with_bump(seeds_view(seeds@), bump),
        r@.len() == seeds@.len() + 1,
        forall|i: int| 0 <= i < seeds@.len() ==> (#[trigger] r@[i])@ == seeds@[i]@,
        r@[seeds@.len() as int]@ == seq![bump],
{
    let n: usize = seeds.len();
    let mut r: Vec<Vec<u8>> = Vec::new();
    let mut i: usize = 0;
    while i < n
        invariant
            n == seeds@.len(),
            i <= n,
            r@.len() == i,
            forall|k: int| 0 <= k < i ==> (#[trigger] r@[k])@ == seeds@[k]@,
        decreases n - i,
    {
        r.push(copy_bytes(&seeds[i]));
        i += 1;
    }
    let mut last: Vec<u8> = Vec::new();
    last.push(bump);
    proof {
        assert(last@ =~= seq![bump]);
    }
    r.push(last);
    proof {
        assert(seeds_view(r@) =~= with_bump(seeds_view(seeds@), bump));
    }
    r
}

/// The outcome of checking one caller-supplied address against the canonical
/// derivation for its role: the canonical bump on a match, `AddressMismatch`
/// where the supplied address differs, `NoValidBump` where no derivation
/// exists.
pub open spec fn spec_derive_check(
    seeds: Seq<Seq<u8>>,
    program_id: Seq<u8>,
    expected: Seq<u8>,
) -> Result<u8, ErrorCode> {
    match canonical_pda(seeds, program_id) {
        Some(p) => if p.0 == expected {
            Ok(p.1)
        } else {
            Err(ErrorCode::AddressMismatch)
        },
        None => Err(ErrorCode::NoValidBump),
    }
}

/// Recomputes the canonical derived address for a role and compares it with
/// the address the caller supplied; no address is trusted from caller input.
pub fn derive_and_verify(seeds: &Vec<Vec<u8>>, expected: &Address, program_id: &Address) -> (r:
    Result<u8, ErrorCode>)
    requires
        program_id.wf(),
        seeds@.len() <= 15,
        forall|i: int| 0 <= i < seeds@.len() ==> (#[trigger] seeds@[i])@.len() <= 32,
    ensures
        r == spec_derive_check(seeds_view(seeds@), program_id@, expected@),
{
    match find_program_address(seeds, program_id) {
        Some(p) => {
            if p.0.eq_addr(expected) {
                Ok(p.1)
            } else {
                Err(ErrorCode::AddressMismatch)
            }
        },
        None => Err(ErrorCode::NoValidBump),
    }
}

} // verus!
