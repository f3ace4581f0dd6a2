use vstd::prelude::*;

verus! {

// Seed tags of the external ledger program's address scheme, and the
// action names whose fingerprints the guard and the forwarder compute.
// Each tag exists twice: a spec sequence that contracts speak of, and an
// executable builder proved to produce exactly those bytes.

/// The bytes of `"global_config"`.
pub open spec fn config_seed() -> Seq<u8> {
    seq![103u8, 108, 111, 98, 97, 108, 95, 99, 111, 110, 102, 105, 103]
}

/// The bytes of `"pool"`.
pub open spec fn pool_seed() -> Seq<u8> {
    seq![112u8, 111, 111, 108]
}

/// The bytes of `"pool_vault"`.
pub open spec fn pool_vault_seed() -> Seq<u8> {
    seq![112u8, 111, 111, 108, 95, 118, 97, 117, 108, 116]
}

/// The bytes of `"vault_auth_seed"`.
pub open spec fn auth_seed() -> Seq<u8> {
    seq![118u8, 97, 117, 108, 116, 95, 97, 117, 116, 104, 95, 115, 101, 101, 100]
}

/// The bytes of `"__event_authority"`.
pub open spec fn event_authority_seed() -> Seq<u8> {
    seq![95u8, 95, 101, 118, 101, 110, 116, 95, 97, 117, 116, 104, 111, 114, 105, 116, 121]
}

/// The bytes of `"metadata"`.
pub open spec fn metadata_seed() -> Seq<u8> {
    seq![109u8, 101, 116, 97, 100, 97, 116, 97]
}

/// The bytes of `"buy"`, the action whose fingerprint the guard looks for.
pub open spec fn buy_name() -> Seq<u8> {
    seq![98u8, 117, 121]
}

/// The bytes of `"global:"`, the namespace prefix of every action fingerprint.
pub open spec fn global_prefix() -> Seq<u8> {
    seq![103u8, 108, 111, 98, 97, 108, 58]
}

/// The bytes of `"initialize_v2"`, the external program's creation action.
pub open spec fn initialize_v2_name() -> Seq<u8> {
    seq![105u8, 110, 105, 116, 105, 97, 108, 105, 122, 101, 95, 118, 50]
}

/// The bytes of `"buy_exact_in"`, the external program's trade action.
pub open spec fn buy_exact_in_name() -> Seq<u8> {
    seq![98u8, 117, 121, 95, 101, 120, 97, 99, 116, 95, 105, 110]
}

pub fn config_seed_bytes() -> (r: Vec<u8>)
    ensures
        r@ == config_seed(),
{
    let v: Vec<u8> = vec![103u8, 108, 111, 98, 97, 108, 95, 99, 111, 110, 102, 105, 103];
    proof {
        assert(v@ =~= config_seed());
    }
    v
}

pub fn pool_seed_bytes() -> (r: Vec<u8>)
    ensures
        r@ == pool_seed(),
{
    let v: Vec<u8> = vec![112u8, 111, 111, 108];
    proof {
        assert(v@ =~= pool_seed());
    }
    v
}

pub fn pool_vault_seed_bytes() -> (r: Vec<u8>)
    ensures
        r@ == pool_vault_seed(),
{
    let v: Vec<u8> = vec![112u8, 111, 111, 108, 95, 118, 97, 117, 108, 116];
    proof {
        assert(v@ =~= pool_vault_seed());
    }
    v
}

pub fn auth_seed_bytes() -> (r: Vec<u8>)
    ensures
        r@ == auth_seed(),
{
    let v: Vec<u8> = vec![118u8, 97, 117, 108, 116, 95, 97, 117, 116, 104, 95, 115, 101, 101, 100];
    proof {
        assert(v@ =~= auth_seed());
    }
    v
}

pub fn event_authority_seed_bytes() -> (r: Vec<u8>)
    ensures
        r@ == event_authority_seed(),
{
    let v: Vec<u8> = vec![
        95u8, 95, 101, 118, 101, 110, 116, 95, 97, 117, 116, 104, 111, 114, 105, 116, 121,
    ];
    proof {
        assert(v@ =~= event_authority_seed());
    }
    v
}

pub fn metadata_seed_bytes() -> (r: Vec<u8>)
    ensures
        r@ == metadata_seed(),
{
    let v: Vec<u8> = vec![109u8, 101, 116, 97, 100, 97, 116, 97];
    proof {
        assert(v@ =~= metadata_seed());
    }
    v
}

pub fn buy_name_bytes() -> (r: Vec<u8>)
    ensures
        r@ == buy_name(),
{
    let v: Vec<u8> = vec![98u8, 117, 121];
    proof {
        assert(v@ =~= buy_name());
    }
    v
}

pub fn global_prefix_bytes() -> (r: Vec<u8>)
    ensures
        r@ == global_prefix(),
{
    let v: Vec<u8> = vec![103u8, 108, 111, 98, 97, 108, 58];
    proof {
        assert(v@ =~= global_prefix());
    }
    v
}

pub fn initialize_v2_name_bytes() -> (r: Vec<u8>)
    ensures
        r@ == initialize_v2_name(),
{
    let v: Vec<u8> = vec![105u8, 110, 105, 116, 105, 97, 108, 105, 122, 101, 95, 118, 50];
    proof {
        assert(v@ =~= initialize_v2_name());
    }
    v
}

pub fn buy_exact_in_name_bytes() -> (r: Vec<u8>)
    ensures
        r@ == buy_exact_in_name(),
{
    let v: Vec<u8> = vec![98u8, 117, 121, 95, 101, 120, 97, 99, 116, 95, 105, 110];
    proof {
        assert(v@ =~= buy_exact_in_name());
    }
    v
}

} // verus!
