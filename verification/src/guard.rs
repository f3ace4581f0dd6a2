use vstd::prelude::*;

use crate::addr::Address;

verus! {

/// One position of the ordered instruction list of the current atomic
/// transaction: the program it targets and its opaque payload.
pub struct ScheduledInstruction {
    pub program_id: Address,
    pub data: Vec<u8>,
}

impl ScheduledInstruction {
    pub open spec fn wf(&self) -> bool {
        self.program_id.wf()
    }
}

/// Whether a scheduled instruction satisfies the guard: it targets this
/// program and its payload's leading eight bytes equal the fingerprint.
pub open spec fn is_buy_candidate(
    ins: ScheduledInstruction,
    self_id: Seq<u8>,
    fingerprint: Seq<u8>,
) -> bool {
    &&& ins.program_id@ == self_id
    &&& ins.data@.len() >= 8
    &&& ins.data@.subrange(0, 8) == fingerprint
}

/// Whether some instruction strictly after `current` satisfies the guard.
pub open spec fn buy_scheduled_after(
    instrs: Seq<ScheduledInstruction>,
    current: int,
    self_id: Seq<u8>,
    fingerprint: Seq<u8>,
) -> bool {
    exists|i: int|
        current < i < instrs.len() && is_buy_candidate(#[trigger] instrs[i], self_id, fingerprint)
}

/// Whether the payload's leading bytes equal the fingerprint.
pub fn payload_matches(data: &Vec<u8>, fingerprint: &Vec<u8>) -> (r: bool)
    requires
        fingerprint@.len() == 8,
    ensures
        r == (data@.len() >= 8 && data@.subrange(0, 8) == fingerprint@),
{
    if data.len() < 8 {
        return false;
    }
    let mut i: usize = 0;
    while i < 8
        invariant
            data@.len() >= 8,
            fingerprint@.len() == 8,
            i <= 8,
            forall|j: int| 0 <= j < i ==> data@[j] == fingerprint@[j],
        decreases 8 - i,
    {
        if data[i] != fingerprint[i] {
            proof {
                assert(data@.subrange(0, 8)[i as int] != fingerprint@[i as int]);
            }
            return false;
        }
        i += 1;
    }
    proof {
        assert(data@.subrange(0, 8) =~= fingerprint@);
    }
    true
}

/// Scans the instruction list strictly forward from the position after
/// `current` and reports whether a qualifying buy instruction is scheduled.
/// Positions at or before `current` are never consulted.
pub fn find_buy_after(
    instrs: &Vec<ScheduledInstruction>,
    current: usize,
    self_id: &Address,
    fingerprint: &Vec<u8>,
) -> (r: bool)
    requires
        fingerprint@.len() == 8,
    ensures
        r == buy_scheduled_after(instrs@, current as int, self_id@, fingerprint@),
{
    let n: usize = instrs.len();
    if current >= n {
        return false;
    }
    let mut i: usize = current + 1;
    while i < n
        invariant
            n == instrs@.len(),
            current < i <= n,
            fingerprint@.len() == 8,
            forall|j: int|
                current < j < i ==> !is_buy_candidate(
                    #[trigger] instrs@[j],
                    self_id@,
                    fingerprint@,
                ),
        decreases n - i,
    {
        let ins = &instrs[i];
        if ins.program_id.eq_addr(self_id) && payload_matches(&ins.data, fingerprint) {
            proof {
                assert(is_buy_candidate(instrs@[i as int], self_id@, fingerprint@));
            }
            return true;
        }
        i += 1;
    }
    false
}

} // verus!
