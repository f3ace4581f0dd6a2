use vstd::prelude::*;

use crate::addr::{copy_bytes, Address};
use crate::encode::{
    encode_buy_data, encode_initialize_data, spec_buy_data, spec_initialize_data, LaunchTokenArgs,
    ATOMIC_FUND_RAISING_TARGET, CREATE_FUND_RAISING_TARGET,
};
use crate::error::ErrorCode;
use crate::guard::{buy_scheduled_after, find_buy_after, ScheduledInstruction};
use crate::hashing::{buy_discriminator, buy_discriminator_bytes};
use crate::pda::{derive_and_verify, seeds_view, spec_derive_check};
use crate::seeds::{
    auth_seed, auth_seed_bytes, config_seed, config_seed_bytes, event_authority_seed,
    event_authority_seed_bytes, metadata_seed, metadata_seed_bytes, pool_seed, pool_seed_bytes,
    pool_vault_seed, pool_vault_seed_bytes,
};

verus! {

// ---------------------------------------------------------------------------
// Seed lists, one per account role of the external program's address scheme.
// ---------------------------------------------------------------------------

/// Seeds of the vault authority role.
pub open spec fn authority_seed_list() -> Seq<Seq<u8>> {
    seq![auth_seed()]
}

/// Seeds of the global configuration role: the tag, the quote mint, a zero
/// curve index byte and a zero fee index word.
pub open spec fn config_seed_list(quote_mint: Seq<u8>) -> Seq<Seq<u8>> {
    seq![config_seed(), quote_mint, seq![0u8], seq![0u8, 0u8]]
}

/// Seeds of the pool role: the tag and the two mints.
pub open spec fn pool_seed_list(base_mint: Seq<u8>, quote_mint: Seq<u8>) -> Seq<Seq<u8>> {
    seq![pool_seed(), base_mint, quote_mint]
}

/// Seeds of a vault role: the tag, the pool and the vault's mint.
pub open spec fn vault_seed_list(pool_state: Seq<u8>, mint: Seq<u8>) -> Seq<Seq<u8>> {
    seq![pool_vault_seed(), pool_state, mint]
}

/// Seeds of the metadata role: the tag, the metadata program and the mint.
pub open spec fn metadata_seed_list(metadata_program: Seq<u8>, base_mint: Seq<u8>) -> Seq<
    Seq<u8>,
> {
    seq![metadata_seed(), metadata_program, base_mint]
}

/// Seeds of the event authority role.
pub open spec fn event_authority_seed_list() -> Seq<Seq<u8>> {
    seq![event_authority_seed()]
}

/// Seeds of an associated token account: the wallet, the token program and
/// the mint.
pub open spec fn ata_seed_list(wallet: Seq<u8>, token_program: Seq<u8>, mint: Seq<u8>) -> Seq<
    Seq<u8>,
> {
    seq![wallet, token_program, mint]
}

fn authority_seed_vecs() -> (r: Vec<Vec<u8>>)
    ensures
        seeds_view(r@) == authority_seed_list(),
        r@.len() == 1,
        forall|i: int| 0 <= i < r@.len() ==> (#[trigger] r@[i])@.len() <= 32,
{
    let mut v: Vec<Vec<u8>> = Vec::new();
    v.push(auth_seed_bytes());
    proof {
        assert(seeds_view(v@) =~= authority_seed_list());
    }
    v
}

fn config_seed_vecs(quote_mint: &Address) -> (r: Vec<Vec<u8>>)
    requires
        quote_mint.wf(),
    ensures
        seeds_view(r@) == config_seed_list(quote_mint@),
        r@.len() == 4,
        forall|i: int| 0 <= i < r@.len() ==> (#[trigger] r@[i])@.len() <= 32,
{
    let mut v: Vec<Vec<u8>> = Vec::new();
    v.push(config_seed_bytes());
    v.push(copy_bytes(&quote_mint.bytes));
    let curve_index: Vec<u8> = vec![0u8];
    v.push(curve_index);
    let fee_index: Vec<u8> = vec![0u8, 0u8];
    v.push(fee_index);
    proof {
        assert(seeds_view(v@) =~~= config_seed_list(quote_mint@));
    }
    v
}

fn pool_seed_vecs(base_mint: &Address, quote_mint: &Address) -> (r: Vec<Vec<u8>>)
    requires
        base_mint.wf(),
        quote_mint.wf(),
    ensures
        seeds_view(r@) == pool_seed_list(base_mint@, quote_mint@),
        r@.len() == 3,
        forall|i: int| 0 <= i < r@.len() ==> (#[trigger] r@[i])@.len() <= 32,
{
    let mut v: Vec<Vec<u8>> = Vec::new();
    v.push(pool_seed_bytes());
    v.push(copy_bytes(&base_mint.bytes));
    v.push(copy_bytes(&quote_mint.bytes));
    proof {
        assert(seeds_view(v@) =~= pool_seed_list(base_mint@, quote_mint@));
    }
    v
}

fn vault_seed_vecs(pool_state: &Address, mint: &Address) -> (r: Vec<Vec<u8>>)
    requires
        pool_state.wf(),
        mint.wf(),
    ensures
        seeds_view(r@) == vault_seed_list(pool_state@, mint@),
        r@.len() == 3,
        forall|i: int| 0 <= i < r@.len() ==> (#[trigger] r@[i])@.len() <= 32,
{
    let mut v: Vec<Vec<u8>> = Vec::new();
    v.push(pool_vault_seed_bytes());
    v.push(copy_bytes(&pool_state.bytes));
    v.push(copy_bytes(&mint.bytes));
    proof {
        assert(seeds_view(v@) =~= vault_seed_list(pool_state@, mint@));
    }
    v
}

fn metadata_seed_vecs(metadata_program: &Address, base_mint: &Address) -> (r: Vec<Vec<u8>>)
    requires
        metadata_program.wf(),
        base_mint.wf(),
    ensures
        seeds_view(r@) == metadata_seed_list(metadata_program@, base_mint@),
        r@.len() == 3,
        forall|i: int| 0 <= i < r@.len() ==> (#[trigger] r@[i])@.len() <= 32,
{
    let mut v: Vec<Vec<u8>> = Vec::new();
    v.push(metadata_seed_bytes());
    v.push(copy_bytes(&metadata_program.bytes));
    v.push(copy_bytes(&base_mint.bytes));
    proof {
        assert(seeds_view(v@) =~= metadata_seed_list(metadata_program@, base_mint@));
    }
    v
}

fn event_authority_seed_vecs() -> (r: Vec<Vec<u8>>)
    ensures
        seeds_view(r@) == event_authority_seed_list(),
        r@.len() == 1,
        forall|i: int| 0 <= i < r@.len() ==> (#[trigger] r@[i])@.len() <= 32,
{
    let mut v: Vec<Vec<u8>> = Vec::new();
    v.push(event_authority_seed_bytes());
    proof {
        assert(seeds_view(v@) =~= event_authority_seed_list());
    }
    v
}

fn ata_seed_vecs(wallet: &Address, token_program: &Address, mint: &Address) -> (r: Vec<Vec<u8>>)
    requires
        wallet.wf(),
        token_program.wf(),
        mint.wf(),
    ensures
        seeds_view(r@) == ata_seed_list(wallet@, token_program@, mint@),
        r@.len() == 3,
        forall|i: int| 0 <= i < r@.len() ==> (#[trigger] r@[i])@.len() <= 32,
{
    let mut v: Vec<Vec<u8>> = Vec::new();
    v.push(copy_bytes(&wallet.bytes));
    v.push(copy_bytes(&token_program.bytes));
    v.push(copy_bytes(&mint.bytes));
    proof {
        assert(seeds_view(v@) =~= ata_seed_list(wallet@, token_program@, mint@));
    }
    v
}

// ---------------------------------------------------------------------------
// The assembled cross-program call.
// ---------------------------------------------------------------------------

/// One assembled cross-program call: the program to invoke, the account
/// addresses in the external program's required order, and the payload.
pub struct ForwardCall {
    pub program_id: Address,
    pub accounts: Vec<Address>,
    pub data: Vec<u8>,
}

/// The byte sequences held by a list of addresses.
pub open spec fn addrs_view(s: Seq<Address>) -> Seq<Seq<u8>> {
    s.map_values(|a: Address| a@)
}

// ---------------------------------------------------------------------------
// Account sets of the three entry points.
// ---------------------------------------------------------------------------

/// Accounts of the plain create entry point.
pub struct Create {
    pub user: Address,
    pub authority: Address,
    pub global_config: Address,
    pub platform_config: Address,
    pub pool_state: Address,
    pub base_vault: Address,
    pub quote_vault: Address,
    pub metadata_account: Address,
    pub base_token_mint: Address,
    pub quote_token_mint: Address,
    pub event_authority: Address,
    pub rent_program: Address,
    pub metadata_program: Address,
    pub raydium_launchpad_program: Address,
    pub token_program: Address,
    pub system_program: Address,
}

impl Create {
    pub open spec fn wf(&self) -> bool {
        &&& self.user.wf()
        &&& self.authority.wf()
        &&& self.global_config.wf()
        &&& self.platform_config.wf()
        &&& self.pool_state.wf()
        &&& self.base_vault.wf()
        &&& self.quote_vault.wf()
        &&& self.metadata_account.wf()
        &&& self.base_token_mint.wf()
        &&& self.quote_token_mint.wf()
        &&& self.event_authority.wf()
        &&& self.rent_program.wf()
        &&& self.metadata_program.wf()
        &&& self.raydium_launchpad_program.wf()
        &&& self.token_program.wf()
        &&& self.system_program.wf()
    }
}

/// Accounts of the atomic create entry point. The scheduled-instruction
/// list of the enclosing transaction is handed to the handler beside them.
pub struct Atomic {
    pub creator: Address,
    pub authority: Address,
    pub global_config: Address,
    pub platform_config: Address,
    pub pool_state: Address,
    pub base_vault: Address,
    pub quote_vault: Address,
    pub metadata_account: Address,
    pub base_token_mint: Address,
    pub quote_token_mint: Address,
    pub event_authority: Address,
    pub rent_program: Address,
    pub metadata_program: Address,
    pub raydium_launchpad_program: Address,
    pub token_program: Address,
    pub system_program: Address,
}

impl Atomic {
    pub open spec fn wf(&self) -> bool {
        &&& self.creator.wf()
        &&& self.authority.wf()
        &&& self.global_config.wf()
        &&& self.platform_config.wf()
        &&& self.pool_state.wf()
        &&& self.base_vault.wf()
        &&& self.quote_vault.wf()
        &&& self.metadata_account.wf()
        &&& self.base_token_mint.wf()
        &&& self.quote_token_mint.wf()
        &&& self.event_authority.wf()
        &&& self.rent_program.wf()
        &&& self.metadata_program.wf()
        &&& self.raydium_launchpad_program.wf()
        &&& self.token_program.wf()
        &&& self.system_program.wf()
    }
}

/// Accounts of the buy entry point.
pub struct Buy {
    pub user: Address,
    pub authority: Address,
    pub global_config: Address,
    pub platform_config: Address,
    pub pool_state: Address,
    pub user_base_token: Address,
    pub user_quote_token: Address,
    pub base_vault: Address,
    pub quote_vault: Address,
    pub base_token_mint: Address,
    pub quote_token_mint: Address,
    pub event_authority: Address,
    pub raydium_launchpad_program: Address,
    pub token_program: Address,
    pub system_program: Address,
    pub associated_token_program: Address,
}

impl Buy {
    pub open spec fn wf(&self) -> bool {
        &&& self.user.wf()
        &&& self.authority.wf()
        &&& self.global_config.wf()
        &&& self.platform_config.wf()
        &&& self.pool_state.wf()
        &&& self.user_base_token.wf()
        &&& self.user_quote_token.wf()
        &&& self.base_vault.wf()
        &&& self.quote_vault.wf()
        &&& self.base_token_mint.wf()
        &&& self.quote_token_mint.wf()
        &&& self.event_authority.wf()
        &&& self.raydium_launchpad_program.wf()
        &&& self.token_program.wf()
        &&& self.system_program.wf()
        &&& self.associated_token_program.wf()
    }
}

// ---------------------------------------------------------------------------
// Address checks, applied uniformly before any call is assembled.
// ---------------------------------------------------------------------------

/// The first failure among the derivation checks of a launch entry point,
/// in the order the checks run, or `None` where every address matches.
pub open spec fn launch_account_error(
    authority: Seq<u8>,
    global_config: Seq<u8>,
    pool_state: Seq<u8>,
    base_vault: Seq<u8>,
    quote_vault: Seq<u8>,
    metadata_account: Seq<u8>,
    event_authority: Seq<u8>,
    base_mint: Seq<u8>,
    quote_mint: Seq<u8>,
    metadata_program: Seq<u8>,
    launchpad: Seq<u8>,
) -> Option<ErrorCode> {
    match spec_derive_check(authority_seed_list(), launchpad, authority) {
        Err(e) => Some(e),
        Ok(_) => match spec_derive_check(config_seed_list(quote_mint), launchpad, global_config) {
            Err(e) => Some(e),
            Ok(_) => match spec_derive_check(
                pool_seed_list(base_mint, quote_mint),
                launchpad,
                pool_state,
            ) {
                Err(e) => Some(e),
                Ok(_) => match spec_derive_check(
                    vault_seed_list(pool_state, base_mint),
                    launchpad,
                    base_vault,
                ) {
                    Err(e) => Some(e),
                    Ok(_) => match spec_derive_check(
                        vault_seed_list(pool_state, quote_mint),
                        launchpad,
                        quote_vault,
                    ) {
                        Err(e) => Some(e),
                        Ok(_) => match spec_derive_check(
                            metadata_seed_list(metadata_program, base_mint),
                            metadata_program,
                            metadata_account,
                        ) {
                            Err(e) => Some(e),
                            Ok(_) => match spec_derive_check(
                                event_authority_seed_list(),
                                launchpad,
                                event_authority,
                            ) {
                                Err(e) => Some(e),
                                Ok(_) => None,
                            },
                        },
                    },
                },
            },
        },
    }
}

/// Recomputes and checks every launch-role address; stops at the first
/// mismatch. No address is trusted from caller input alone.
fn verify_launch_accounts(
    authority: &Address,
    global_config: &Address,
    pool_state: &Address,
    base_vault: &Address,
    quote_vault: &Address,
    metadata_account: &Address,
    event_authority: &Address,
    base_mint: &Address,
    quote_mint: &Address,
    metadata_program: &Address,
    launchpad: &Address,
) -> (r: Result<(), ErrorCode>)
    requires
        pool_state.wf(),
        base_mint.wf(),
        quote_mint.wf(),
        metadata_program.wf(),
        launchpad.wf(),
    ensures
        match r {
            Ok(_) => launch_account_error(
                authority@,
                global_config@,
                pool_state@,
                base_vault@,
                quote_vault@,
                metadata_account@,
                event_authority@,
                base_mint@,
                quote_mint@,
                metadata_program@,
                launchpad@,
            ) is None,
            Err(e) => launch_account_error(
                authority@,
                global_config@,
                pool_state@,
                base_vault@,
                quote_vault@,
                metadata_account@,
                event_authority@,
                base_mint@,
                quote_mint@,
                metadata_program@,
                launchpad@,
            ) == Some(e),
        },
{
    let s1 = authority_seed_vecs();
    if let Err(e) = derive_and_verify(&s1, authority, launchpad) {
        return Err(e);
    }
    let s2 = config_seed_vecs(quote_mint);
    if let Err(e) = derive_and_verify(&s2, global_config, launchpad) {
        return Err(e);
    }
    let s3 = pool_seed_vecs(base_mint, quote_mint);
    if let Err(e) = derive_and_verify(&s3, pool_state, launchpad) {
        return Err(e);
    }
    let s4 = vault_seed_vecs(pool_state, base_mint);
    if let Err(e) = derive_and_verify(&s4, base_vault, launchpad) {
        return Err(e);
    }
    let s5 = vault_seed_vecs(pool_state, quote_mint);
    if let Err(e) = derive_and_verify(&s5, quote_vault, launchpad) {
        return Err(e);
    }
    let s6 = metadata_seed_vecs(metadata_program, base_mint);
    if let Err(e) = derive_and_verify(&s6, metadata_account, metadata_program) {
        return Err(e);
    }
    let s7 = event_authority_seed_vecs();
    if let Err(e) = derive_and_verify(&s7, event_authority, launchpad) {
        return Err(e);
    }
    Ok(())
}

/// The first failing derivation check of the create entry point.
pub open spec fn create_account_error(a: Create) -> Option<ErrorCode> {
    launch_account_error(
        a.authority@,
        a.global_config@,
        a.pool_state@,
        a.base_vault@,
        a.quote_vault@,
        a.metadata_account@,
        a.event_authority@,
        a.base_token_mint@,
        a.quote_token_mint@,
        a.metadata_program@,
        a.raydium_launchpad_program@,
    )
}

/// The first failing derivation check of the atomic entry point.
pub open spec fn atomic_account_error(a: Atomic) -> Option<ErrorCode> {
    launch_account_error(
        a.authority@,
        a.global_config@,
        a.pool_state@,
        a.base_vault@,
        a.quote_vault@,
        a.metadata_account@,
        a.event_authority@,
        a.base_token_mint@,
        a.quote_token_mint@,
        a.metadata_program@,
        a.raydium_launchpad_program@,
    )
}

/// The first failing derivation check of the buy entry point, in the order
/// the checks run.
pub open spec fn buy_account_error(a: Buy) -> Option<ErrorCode> {
    match spec_derive_check(
        authority_seed_list(),
        a.raydium_launchpad_program@,
        a.authority@,
    ) {
        Err(e) => Some(e),
        Ok(_) => match spec_derive_check(
            config_seed_list(a.quote_token_mint@),
            a.raydium_launchpad_program@,
            a.global_config@,
        ) {
            Err(e) => Some(e),
            Ok(_) => match spec_derive_check(
                pool_seed_list(a.base_token_mint@, a.quote_token_mint@),
                a.raydium_launchpad_program@,
                a.pool_state@,
            ) {
                Err(e) => Some(e),
                Ok(_) => match spec_derive_check(
                    ata_seed_list(a.user@, a.token_program@, a.base_token_mint@),
                    a.associated_token_program@,
                    a.user_base_token@,
                ) {
                    Err(e) => Some(e),
                    Ok(_) => match spec_derive_check(
                        ata_seed_list(a.user@, a.token_program@, a.quote_token_mint@),
                        a.associated_token_program@,
                        a.user_quote_token@,
                    ) {
                        Err(e) => Some(e),
                        Ok(_) => match spec_derive_check(
                            vault_seed_list(a.pool_state@, a.base_token_mint@),
                            a.raydium_launchpad_program@,
                            a.base_vault@,
                        ) {
                            Err(e) => Some(e),
                            Ok(_) => match spec_derive_check(
                                vault_seed_list(a.pool_state@, a.quote_token_mint@),
                                a.raydium_launchpad_program@,
                                a.quote_vault@,
                            ) {
                                Err(e) => Some(e),
                                Ok(_) => match spec_derive_check(
                                    event_authority_seed_list(),
                                    a.raydium_launchpad_program@,
                                    a.event_authority@,
                                ) {
                                    Err(e) => Some(e),
                                    Ok(_) => None,
                                },
                            },
                        },
                    },
                },
            },
        },
    }
}

// ---------------------------------------------------------------------------
// Account orderings of the forwarded calls.
// ---------------------------------------------------------------------------

/// The account addresses of a forwarded launch call, in the external
/// program's required order; the payer signs and is also the creator.
pub open spec fn launch_forward_accounts(
    payer: Seq<u8>,
    global_config: Seq<u8>,
    platform_config: Seq<u8>,
    authority: Seq<u8>,
    pool_state: Seq<u8>,
    base_mint: Seq<u8>,
    quote_mint: Seq<u8>,
    base_vault: Seq<u8>,
    quote_vault: Seq<u8>,
    metadata_account: Seq<u8>,
    token_program: Seq<u8>,
    metadata_program: Seq<u8>,
    system_program: Seq<u8>,
    rent_program: Seq<u8>,
    event_authority: Seq<u8>,
    launchpad: Seq<u8>,
) -> Seq<Seq<u8>> {
    seq![
        payer,
        payer,
        global_config,
        platform_config,
        authority,
        pool_state,
        base_mint,
        quote_mint,
        base_vault,
        quote_vault,
        metadata_account,
        token_program,
        token_program,
        metadata_program,
        system_program,
        rent_program,
        event_authority,
        launchpad,
    ]
}

/// The forwarded account order of the create entry point.
pub open spec fn create_forward_accounts(a: Create) -> Seq<Seq<u8>> {
    launch_forward_accounts(
        a.user@,
        a.global_config@,
        a.platform_config@,
        a.authority@,
        a.pool_state@,
        a.base_token_mint@,
        a.quote_token_mint@,
        a.base_vault@,
        a.quote_vault@,
        a.metadata_account@,
        a.token_program@,
        a.metadata_program@,
        a.system_program@,
        a.rent_program@,
        a.event_authority@,
        a.raydium_launchpad_program@,
    )
}

/// The forwarded account order of the atomic entry point.
pub open spec fn atomic_forward_accounts(a: Atomic) -> Seq<Seq<u8>> {
    launch_forward_accounts(
        a.creator@,
        a.global_config@,
        a.platform_config@,
        a.authority@,
        a.pool_state@,
        a.base_token_mint@,
        a.quote_token_mint@,
        a.base_vault@,
        a.quote_vault@,
        a.metadata_account@,
        a.token_program@,
        a.metadata_program@,
        a.system_program@,
        a.rent_program@,
        a.event_authority@,
        a.raydium_launchpad_program@,
    )
}

/// The fixed forwarded account order of the buy entry point, before the
/// caller's extra accounts are appended.
pub open spec fn buy_forward_accounts(a: Buy) -> Seq<Seq<u8>> {
    seq![
        a.user@,
        a.authority@,
        a.global_config@,
        a.platform_config@,
        a.pool_state@,
        a.user_base_token@,
        a.user_quote_token@,
        a.base_vault@,
        a.quote_vault@,
        a.base_token_mint@,
        a.quote_token_mint@,
        a.token_program@,
        a.token_program@,
        a.event_authority@,
        a.raydium_launchpad_program@,
    ]
}

// ---------------------------------------------------------------------------
// The handlers: verify every address, gate, then assemble the forward call.
// ---------------------------------------------------------------------------

/// Builds the account list of a forwarded launch call.
fn build_launch_accounts(
    payer: &Address,
    global_config: &Address,
    platform_config: &Address,
    authority: &Address,
    pool_state: &Address,
    base_mint: &Address,
    quote_mint: &Address,
    base_vault: &Address,
    quote_vault: &Address,
    metadata_account: &Address,
    token_program: &Address,
    metadata_program: &Address,
    system_program: &Address,
    rent_program: &Address,
    event_authority: &Address,
    launchpad: &Address,
) -> (r: Vec<Address>)
    ensures
        addrs_view(r@) == launch_forward_accounts(
            payer@,
            global_config@,
            platform_config@,
            authority@,
            pool_state@,
            base_mint@,
            quote_mint@,
            base_vault@,
            quote_vault@,
            metadata_account@,
            token_program@,
            metadata_program@,
            system_program@,
            rent_program@,
            event_authority@,
            launchpad@,
        ),
{
    let mut v: Vec<Address> = Vec::new();
    v.push(payer.dup());
    v.push(payer.dup());
    v.push(global_config.dup());
    v.push(platform_config.dup());
    v.push(authority.dup());
    v.push(pool_state.dup());
    v.push(base_mint.dup());
    v.push(quote_mint.dup());
    v.push(base_vault.dup());
    v.push(quote_vault.dup());
    v.push(metadata_account.dup());
    v.push(token_program.dup());
    v.push(token_program.dup());
    v.push(metadata_program.dup());
    v.push(system_program.dup());
    v.push(rent_program.dup());
    v.push(event_authority.dup());
    v.push(launchpad.dup());
    proof {
        assert(addrs_view(v@) =~= launch_forward_accounts(
            payer@,
            global_config@,
            platform_config@,
            authority@,
            pool_state@,
            base_mint@,
            quote_mint@,
            base_vault@,
            quote_vault@,
            metadata_account@,
            token_program@,
            metadata_program@,
            system_program@,
            rent_program@,
            event_authority@,
            launchpad@,
        ));
    }
    v
}

/// Verifies every role address of the plain create entry point and, where
/// all match, assembles the forwarded launch call with the create entry
/// point's fund-raising target. No call is assembled on any failure.
pub fn create_handler(accounts: &Create, args: &LaunchTokenArgs) -> (r: Result<
    ForwardCall,
    ErrorCode,
>)
    requires
        accounts.wf(),
        args.wf(),
    ensures
        match r {
            Ok(fc) => {
                &&& create_account_error(*accounts) is None
                &&& fc.program_id@ == accounts.raydium_launchpad_program@
                &&& addrs_view(fc.accounts@) == create_forward_accounts(*accounts)
                &&& fc.data@ == spec_initialize_data(
                    args.name@,
                    args.symbol@,
                    args.uri@,
                    CREATE_FUND_RAISING_TARGET,
                )
            },
            Err(e) => create_account_error(*accounts) == Some(e),
        },
{
    if let Err(e) = verify_launch_accounts(
        &accounts.authority,
        &accounts.global_config,
        &accounts.pool_state,
        &accounts.base_vault,
        &accounts.quote_vault,
        &accounts.metadata_account,
        &accounts.event_authority,
        &accounts.base_token_mint,
        &accounts.quote_token_mint,
        &accounts.metadata_program,
        &accounts.raydium_launchpad_program,
    ) {
        return Err(e);
    }
    let accs = build_launch_accounts(
        &accounts.user,
        &accounts.global_config,
        &accounts.platform_config,
        &accounts.authority,
        &accounts.pool_state,
        &accounts.base_token_mint,
        &accounts.quote_token_mint,
        &accounts.base_vault,
        &accounts.quote_vault,
        &accounts.metadata_account,
        &accounts.token_program,
        &accounts.metadata_program,
        &accounts.system_program,
        &accounts.rent_program,
        &accounts.event_authority,
        &accounts.raydium_launchpad_program,
    );
    let data = encode_initialize_data(args, CREATE_FUND_RAISING_TARGET);
    Ok(ForwardCall {
        program_id: accounts.raydium_launchpad_program.dup(),
        accounts: accs,
        data,
    })
}

/// The outcome of the atomic entry point's checks: the first failing
/// derivation check, else `BuyInstructionMissing` where no qualifying buy
/// instruction is scheduled after the current one, else no error.
pub open spec fn atomic_outcome_error(
    a: Atomic,
    instrs: Seq<ScheduledInstruction>,
    current: int,
    self_id: Seq<u8>,
) -> Option<ErrorCode> {
    match atomic_account_error(a) {
        Some(e) => Some(e),
        None => if buy_scheduled_after(instrs, current, self_id, buy_discriminator()) {
            None
        } else {
            Some(ErrorCode::BuyInstructionMissing)
        },
    }
}

/// Verifies every role address of the atomic entry point, then requires a
/// qualifying buy instruction strictly after the current position of the
/// transaction's instruction list, and only then assembles the forwarded
/// launch call with the atomic entry point's fund-raising target. No call
/// is assembled on any failure.
pub fn atmic_handler(
    accounts: &Atomic,
    args: &LaunchTokenArgs,
    instrs: &Vec<ScheduledInstruction>,
    current_index: usize,
    self_program: &Address,
) -> (r: Result<ForwardCall, ErrorCode>)
    requires
        accounts.wf(),
        args.wf(),
    ensures
        match r {
            Ok(fc) => {
                &&& atomic_outcome_error(
                    *accounts,
                    instrs@,
                    current_index as int,
                    self_program@,
                ) is None
                &&& fc.program_id@ == accounts.raydium_launchpad_program@
                &&& addrs_view(fc.accounts@) == atomic_forward_accounts(*accounts)
                &&& fc.data@ == spec_initialize_data(
                    args.name@,
                    args.symbol@,
                    args.uri@,
                    ATOMIC_FUND_RAISING_TARGET,
                )
            },
            Err(e) => atomic_outcome_error(
                *accounts,
                instrs@,
                current_index as int,
                self_program@,
            ) == Some(e),
        },
{
    if let Err(e) = verify_launch_accounts(
        &accounts.authority,
        &accounts.global_config,
        &accounts.pool_state,
        &accounts.base_vault,
        &accounts.quote_vault,
        &accounts.metadata_account,
        &accounts.event_authority,
        &accounts.base_token_mint,
        &accounts.quote_token_mint,
        &accounts.metadata_program,
        &accounts.raydium_launchpad_program,
    ) {
        return Err(e);
    }
    let fingerprint = buy_discriminator_bytes();
    if !find_buy_after(instrs, current_index, self_program, &fingerprint) {
        return Err(ErrorCode::BuyInstructionMissing);
    }
    let accs = build_launch_accounts(
        &accounts.creator,
        &accounts.global_config,
        &accounts.platform_config,
        &accounts.authority,
        &accounts.pool_state,
        &accounts.base_token_mint,
        &accounts.quote_token_mint,
        &accounts.base_vault,
        &accounts.quote_vault,
        &accounts.metadata_account,
        &accounts.token_program,
        &accounts.metadata_program,
        &accounts.system_program,
        &accounts.rent_program,
        &accounts.event_authority,
        &accounts.raydium_launchpad_program,
    );
    let data = encode_initialize_data(args, ATOMIC_FUND_RAISING_TARGET);
    Ok(ForwardCall {
        program_id: accounts.raydium_launchpad_program.dup(),
        accounts: accs,
        data,
    })
}

/// Verifies every role address of the buy entry point, including the two
/// associated token accounts, and assembles the forwarded trade call with
/// the caller-chosen amounts; the caller's extra accounts are appended
/// untouched. No call is assembled on any failure.
pub fn buy_handler(
    accounts: &Buy,
    amount_in: u64,
    minimum_amount_out: u64,
    share_fee_rate: u64,
    remaining_accounts: &Vec<Address>,
) -> (r: Result<ForwardCall, ErrorCode>)
    requires
        accounts.wf(),
    ensures
        match r {
            Ok(fc) => {
                &&& buy_account_error(*accounts) is None
                &&& fc.program_id@ == accounts.raydium_launchpad_program@
                &&& addrs_view(fc.accounts@) == buy_forward_accounts(*accounts) + addrs_view(
                    remaining_accounts@,
                )
                &&& fc.data@ == spec_buy_data(amount_in, minimum_amount_out, share_fee_rate)
            },
            Err(e) => buy_account_error(*accounts) == Some(e),
        },
{
    let s1 = authority_seed_vecs();
    if let Err(e) = derive_and_verify(
        &s1,
        &accounts.authority,
        &accounts.raydium_launchpad_program,
    ) {
        return Err(e);
    }
    let s2 = config_seed_vecs(&accounts.quote_token_mint);
    if let Err(e) = derive_and_verify(
        &s2,
        &accounts.global_config,
        &accounts.raydium_launchpad_program,
    ) {
        return Err(e);
    }
    let s3 = pool_seed_vecs(&accounts.base_token_mint, &accounts.quote_token_mint);
    if let Err(e) = derive_and_verify(
        &s3,
        &accounts.pool_state,
        &accounts.raydium_launchpad_program,
    ) {
        return Err(e);
    }
    let s4 = ata_seed_vecs(&accounts.user, &accounts.token_program, &accounts.base_token_mint);
    if let Err(e) = derive_and_verify(
        &s4,
        &accounts.user_base_token,
        &accounts.associated_token_program,
    ) {
        return Err(e);
    }
    let s5 = ata_seed_vecs(&accounts.user, &accounts.token_program, &accounts.quote_token_mint);
    if let Err(e) = derive_and_verify(
        &s5,
        &accounts.user_quote_token,
        &accounts.associated_token_program,
    ) {
        return Err(e);
    }
    let s6 = vault_seed_vecs(&accounts.pool_state, &accounts.base_token_mint);
    if let Err(e) = derive_and_verify(
        &s6,
        &accounts.base_vault,
        &accounts.raydium_launchpad_program,
    ) {
        return Err(e);
    }
    let s7 = vault_seed_vecs(&accounts.pool_state, &accounts.quote_token_mint);
    if let Err(e) = derive_and_verify(
        &s7,
        &accounts.quote_vault,
        &accounts.raydium_launchpad_program,
    ) {
        return Err(e);
    }
    let s8 = event_authority_seed_vecs();
    if let Err(e) = derive_and_verify(
        &s8,
        &accounts.event_authority,
        &accounts.raydium_launchpad_program,
    ) {
        return Err(e);
    }
    let mut accs: Vec<Address> = Vec::new();
    accs.push(accounts.user.dup());
    accs.push(accounts.authority.dup());
    accs.push(accounts.global_config.dup());
    accs.push(accounts.platform_config.dup());
    accs.push(accounts.pool_state.dup());
    accs.push(accounts.user_base_token.dup());
    accs.push(accounts.user_quote_token.dup());
    accs.push(accounts.base_vault.dup());
    accs.push(accounts.quote_vault.dup());
    accs.push(accounts.base_token_mint.dup());
    accs.push(accounts.quote_token_mint.dup());
    accs.push(accounts.token_program.dup());
    accs.push(accounts.token_program.dup());
    accs.push(accounts.event_authority.dup());
    accs.push(accounts.raydium_launchpad_program.dup());
    proof {
        assert(addrs_view(accs@) =~= buy_forward_accounts(*accounts));
    }
    let n: usize = remaining_accounts.len();
    let mut i: usize = 0;
    while i < n
        invariant
            n == remaining_accounts@.len(),
            i <= n,
            accs@.len() == 15 + i,
            forall|k: int|
                0 <= k < 15 ==> (#[trigger] accs@[k])@ == buy_forward_accounts(*accounts)[k],
            forall|j: int| 0 <= j < i ==> (#[trigger] accs@[15 + j])@ == remaining_accounts@[j]@,
        decreases n - i,
    {
        accs.push(remaining_accounts[i].dup());
        i += 1;
    }
    proof {
        let ghost full = buy_forward_accounts(*accounts) + addrs_view(remaining_accounts@);
        assert forall|k: int| 0 <= k < accs@.len() implies #[trigger] addrs_view(accs@)[k]
            == full[k] by {
            if k < 15 {
                assert(accs@[k]@ == buy_forward_accounts(*accounts)[k]);
            } else {
                let j = k - 15;
                assert(accs@[15 + j]@ == remaining_accounts@[j]@);
            }
        }
        assert(addrs_view(accs@) =~= full);
    }
    let data = encode_buy_data(amount_in, minimum_amount_out, share_fee_rate);
    Ok(ForwardCall {
        program_id: accounts.raydium_launchpad_program.dup(),
        accounts: accs,
        data,
    })
}

} // verus!
