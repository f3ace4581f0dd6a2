pub mod addr;
pub mod encode;
pub mod error;
pub mod forward;
pub mod guard;
pub mod hashing;
pub mod laws;
pub mod pda;
pub mod seeds;

pub use addr::Address;
pub use encode::LaunchTokenArgs;
pub use error::ErrorCode;
pub use forward::{Atomic, Buy, Create, ForwardCall};
pub use guard::ScheduledInstruction;

use vstd::prelude::*;

use crate::encode::{
    spec_buy_data, spec_initialize_data, ATOMIC_FUND_RAISING_TARGET, CREATE_FUND_RAISING_TARGET,
};
use crate::forward::{
    addrs_view, atmic_handler, atomic_forward_accounts, atomic_outcome_error, buy_account_error,
    buy_forward_accounts, buy_handler, create_account_error, create_forward_accounts,
    create_handler,
};

verus! {

/// Derives and checks every role address, then assembles the forwarded
/// launch call with the plain entry point's fund-raising target.
pub fn create(accounts: &Create, args: &LaunchTokenArgs) -> (r: Result<ForwardCall, ErrorCode>)
    requires
        accounts.wf(),
        args.wf(),
    ensures
        match r {
            Ok(fc) => {
                &&& create_account_error(*accounts) is None
                &&& fc.program_id@ == accounts.raydium_launchpad_program@
                &&& addrs_view(fc.accounts@) == create_forward_accounts(*accounts)
                &&& fc.data@ == spec_initialize_data(
                    args.name@,
                    args.symbol@,
                    args.uri@,
                    CREATE_FUND_RAISING_TARGET,
                )
            },
            Err(e) => create_account_error(*accounts) == Some(e),
        },
{
    create_handler(accounts, args)
}

/// Derives and checks every role address and assembles the forwarded trade
/// call with the caller-chosen amounts and extra accounts.
pub fn buy(
    accounts: &Buy,
    amount_in: u64,
    minimum_amount_out: u64,
    share_fee_rate: u64,
    remaining_accounts: &Vec<Address>,
) -> (r: Result<ForwardCall, ErrorCode>)
    requires
        accounts.wf(),
    ensures
        match r {
            Ok(fc) => {
                &&& buy_account_error(*accounts) is None
                &&& fc.program_id@ == accounts.raydium_launchpad_program@
                &&& addrs_view(fc.accounts@) == buy_forward_accounts(*accounts) + addrs_view(
                    remaining_accounts@,
                )
                &&& fc.data@ == spec_buy_data(amount_in, minimum_amount_out, share_fee_rate)
            },
            Err(e) => buy_account_error(*accounts) == Some(e),
        },
{
    buy_handler(accounts, amount_in, minimum_amount_out, share_fee_rate, remaining_accounts)
}

/// Derives and checks every role address, requires a qualifying buy
/// instruction scheduled after the current one, and assembles the forwarded
/// launch call with the atomic entry point's fund-raising target.
pub fn atomic(
    accounts: &Atomic,
    args: &LaunchTokenArgs,
    instrs: &Vec<ScheduledInstruction>,
    current_index: usize,
    self_program: &Address,
) -> (r: Result<ForwardCall, ErrorCode>)
    requires
        accounts.wf(),
        args.wf(),
    ensures
        match r {
            Ok(fc) => {
                &&& atomic_outcome_error(
                    *accounts,
                    instrs@,
                    current_index as int,
                    self_program@,
                ) is None
                &&& fc.program_id@ == accounts.raydium_launchpad_program@
                &&& addrs_view(fc.accounts@) == atomic_forward_accounts(*accounts)
                &&& fc.data@ == spec_initialize_data(
                    args.name@,
                    args.symbol@,
                    args.uri@,
                    ATOMIC_FUND_RAISING_TARGET,
                )
            },
            Err(e) => atomic_outcome_error(
                *accounts,
                instrs@,
                current_index as int,
                self_program@,
            ) == Some(e),
        },
{
    atmic_handler(accounts, args, instrs, current_index, self_program)
}

} // verus!
