use vstd::prelude::*;

use crate::seeds::{buy_name, buy_name_bytes, global_prefix, global_prefix_bytes};

verus! {

/// The SHA-256 digest of a byte sequence. The digest is a function of the
/// input bytes alone; nothing here states what its value is.
pub uninterp spec fn sha256_of(data: Seq<u8>) -> Seq<u8>;

/// Relies on solana_program::hash::hash: the SHA-256 digest of the input,
/// a function of the input bytes alone, always 32 bytes long.
#[verifier::external_body]
fn sha256(data: &Vec<u8>) -> (r: Vec<u8>)
    ensures
        r@ == sha256_of(data@),
        r@.len() == 32,
{
    solana_program::hash::hash(data.as_slice()).to_bytes().to_vec()
}

/// The 8-byte fingerprint identifying the action of the given name: the
/// leading bytes of the digest of the name under the global namespace prefix.
pub open spec fn spec_discriminator(name: Seq<u8>) -> Seq<u8> {
    sha256_of(global_prefix() + name).subrange(0, 8)
}

/// The fingerprint of the `buy` action, which the composition guard looks for.
pub open spec fn buy_discriminator() -> Seq<u8> {
    spec_discriminator(buy_name())
}

/// Computes the 8-byte fingerprint of an action name.
pub fn instruction_discriminator(name: &Vec<u8>) -> (r: Vec<u8>)
    ensures
        r@ == spec_discriminator(name@),
        r@.len() == 8,
{
    let mut msg = global_prefix_bytes();
    let n: usize = name.len();
    let mut i: usize = 0;
    while i < n
        invariant
            n == name@.len(),
            i <= n,
            msg@ == global_prefix() + name@.subrange(0, i as int),
        decreases n - i,
    {
        msg.push(name[i]);
        proof {
            assert(msg@ =~= global_prefix() + name@.subrange(0, i + 1));
        }
        i += 1;
    }
    proof {
        assert(name@.subrange(0, n as int) =~= name@);
    }
    let digest = sha256(&msg);
    let mut disc: Vec<u8> = Vec::new();
    let mut j: usize = 0;
    while j < 8
        invariant
            digest@.len() == 32,
            j <= 8,
            disc@ == digest@.subrange(0, j as int),
        decreases 8 - j,
    {
        disc.push(digest[j]);
        proof {
            assert(disc@ =~= digest@.subrange(0, j + 1));
        }
        j += 1;
    }
    disc
}

/// Computes the fingerprint of the `buy` action.
pub fn buy_discriminator_bytes() -> (r: Vec<u8>)
    ensures
        r@ == buy_discriminator(),
        r@.len() == 8,
{
    let name = buy_name_bytes();
    instruction_discriminator(&name)
}

} // verus!
