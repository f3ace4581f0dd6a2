use vstd::prelude::*;

use crate::encode::{spec_fixed_tail, spec_initialize_data, spec_mint_params};
use crate::error::ErrorCode;
use crate::guard::{buy_scheduled_after, is_buy_candidate, ScheduledInstruction};
use crate::hashing::spec_discriminator;
use crate::pda::{canonical_pda, spec_derive_check};
use crate::seeds::initialize_v2_name;

verus! {

/// Address derivation is a pure function of the seeds and the owning
/// program: any two derivation outcomes obtained for identical inputs
/// agree, address and disambiguation value alike.
pub proof fn lemma_address_determinism(
    seeds: Seq<Seq<u8>>,
    program_id: Seq<u8>,
    r1: Option<(Seq<u8>, u8)>,
    r2: Option<(Seq<u8>, u8)>,
)
    requires
        r1 == canonical_pda(seeds, program_id),
        r2 == canonical_pda(seeds, program_id),
    ensures
        r1 == r2,
{
}

/// A caller-supplied address that differs in any byte from the canonical
/// derivation is rejected with `AddressMismatch`; the check never accepts
/// a near miss.
pub proof fn lemma_address_rejection(
    seeds: Seq<Seq<u8>>,
    program_id: Seq<u8>,
    derived: (Seq<u8>, u8),
    supplied: Seq<u8>,
)
    requires
        canonical_pda(seeds, program_id) == Some(derived),
        supplied != derived.0,
    ensures
        spec_derive_check(seeds, program_id, supplied) == Err::<u8, ErrorCode>(
            ErrorCode::AddressMismatch,
        ),
{
}

/// A qualifying buy instruction anywhere strictly after the current
/// position satisfies the guard, however many unrelated instructions sit
/// between the two.
pub proof fn lemma_composition_soundness(
    instrs: Seq<ScheduledInstruction>,
    current: int,
    self_id: Seq<u8>,
    fingerprint: Seq<u8>,
    i: int,
)
    requires
        current < i < instrs.len(),
        is_buy_candidate(instrs[i], self_id, fingerprint),
    ensures
        buy_scheduled_after(instrs, current, self_id, fingerprint),
{
}

/// Where no position after the current one qualifies, the guard reports
/// the buy instruction missing, whatever stands at or before the current
/// position.
pub proof fn lemma_composition_completeness(
    instrs: Seq<ScheduledInstruction>,
    current: int,
    self_id: Seq<u8>,
    fingerprint: Seq<u8>,
)
    requires
        forall|j: int|
            current < j < instrs.len() ==> !is_buy_candidate(
                #[trigger] instrs[j],
                self_id,
                fingerprint,
            ),
    ensures
        !buy_scheduled_after(instrs, current, self_id, fingerprint),
{
}

/// The scan runs strictly forward: a qualifying buy instruction placed at
/// or before the current position does not satisfy the guard on its own.
pub proof fn lemma_scan_forward_only(
    instrs: Seq<ScheduledInstruction>,
    current: int,
    self_id: Seq<u8>,
    fingerprint: Seq<u8>,
    i: int,
)
    requires
        0 <= i <= current < instrs.len(),
        is_buy_candidate(instrs[i], self_id, fingerprint),
        forall|j: int|
            current < j < instrs.len() ==> !is_buy_candidate(
                #[trigger] instrs[j],
                self_id,
                fingerprint,
            ),
    ensures
        !buy_scheduled_after(instrs, current, self_id, fingerprint),
{
}

/// An instruction that targets this program but whose payload does not
/// begin with the buy fingerprint never satisfies the guard, and neither
/// does one with the right payload under another program.
pub proof fn lemma_fingerprint_specificity(
    ins: ScheduledInstruction,
    self_id: Seq<u8>,
    fingerprint: Seq<u8>,
)
    requires
        ins.program_id@ != self_id || ins.data@.len() < 8 || ins.data@.subrange(0, 8)
            != fingerprint,
    ensures
        !is_buy_candidate(ins, self_id, fingerprint),
{
}

/// Launch payloads built for the same fund-raising target agree on every
/// segment that does not come from the caller: the creation fingerprint in
/// front and the curve, vesting and fee constants behind; only the three
/// mint strings between them differ.
pub proof fn lemma_parameter_fixity(
    name1: Seq<u8>,
    symbol1: Seq<u8>,
    uri1: Seq<u8>,
    name2: Seq<u8>,
    symbol2: Seq<u8>,
    uri2: Seq<u8>,
    target: u64,
)
    ensures
        spec_initialize_data(name1, symbol1, uri1, target) == spec_discriminator(
            initialize_v2_name(),
        ) + spec_mint_params(name1, symbol1, uri1) + spec_fixed_tail(target),
        spec_initialize_data(name2, symbol2, uri2, target) == spec_discriminator(
            initialize_v2_name(),
        ) + spec_mint_params(name2, symbol2, uri2) + spec_fixed_tail(target),
{
}

} // verus!
