use raydium_cpi::forward::{Atomic, Buy, Create};
use raydium_cpi::pda::{derive_and_verify, find_program_address};
use raydium_cpi::{atomic, buy, create, Address, ErrorCode, LaunchTokenArgs, ScheduledInstruction};

const BUY_DISC: [u8; 8] = [102, 6, 61, 18, 1, 218, 235, 234];
const INIT_DISC: [u8; 8] = [67, 153, 175, 39, 218, 16, 38, 32];
const BUY_EXACT_IN_DISC: [u8; 8] = [250, 234, 13, 123, 213, 156, 19, 236];


fn err_of<T>(r: Result<T, ErrorCode>) -> ErrorCode {
    match r {
        Err(e) => e,
        Ok(_) => panic!("expected an error"),
    }
}

fn addr(b: u8) -> Address {
    Address::new(vec![b; 32])
}

fn pda(seeds: Vec<Vec<u8>>, program: &Address) -> Address {
    let (a, _) = find_program_address(&seeds, program).expect("no valid bump in search range");
    a
}

struct Scheme {
    launchpad: Address,
    metadata_program: Address,
    base_mint: Address,
    quote_mint: Address,
    authority: Address,
    global_config: Address,
    pool_state: Address,
    base_vault: Address,
    quote_vault: Address,
    metadata_account: Address,
    event_authority: Address,
}

fn scheme() -> Scheme {
    let launchpad = addr(7);
    let metadata_program = addr(11);
    let base_mint = addr(8);
    let quote_mint = addr(9);
    let authority = pda(vec![b"vault_auth_seed".to_vec()], &launchpad);
    let global_config = pda(
        vec![
            b"global_config".to_vec(),
            quote_mint.bytes.clone(),
            vec![0],
            vec![0, 0],
        ],
        &launchpad,
    );
    let pool_state = pda(
        vec![
            b"pool".to_vec(),
            base_mint.bytes.clone(),
            quote_mint.bytes.clone(),
        ],
        &launchpad,
    );
    let base_vault = pda(
        vec![
            b"pool_vault".to_vec(),
            pool_state.bytes.clone(),
            base_mint.bytes.clone(),
        ],
        &launchpad,
    );
    let quote_vault = pda(
        vec![
            b"pool_vault".to_vec(),
            pool_state.bytes.clone(),
            quote_mint.bytes.clone(),
        ],
        &launchpad,
    );
    let metadata_account = pda(
        vec![
            b"metadata".to_vec(),
            metadata_program.bytes.clone(),
            base_mint.bytes.clone(),
        ],
        &metadata_program,
    );
    let event_authority = pda(vec![b"__event_authority".to_vec()], &launchpad);
    Scheme {
        launchpad,
        metadata_program,
        base_mint,
        quote_mint,
        authority,
        global_config,
        pool_state,
        base_vault,
        quote_vault,
        metadata_account,
        event_authority,
    }
}

fn create_accounts(s: &Scheme) -> Create {
    Create {
        user: addr(1),
        authority: s.authority.dup(),
        global_config: s.global_config.dup(),
        platform_config: addr(2),
        pool_state: s.pool_state.dup(),
        base_vault: s.base_vault.dup(),
        quote_vault: s.quote_vault.dup(),
        metadata_account: s.metadata_account.dup(),
        base_token_mint: s.base_mint.dup(),
        quote_token_mint: s.quote_mint.dup(),
        event_authority: s.event_authority.dup(),
        rent_program: addr(3),
        metadata_program: s.metadata_program.dup(),
        raydium_launchpad_program: s.launchpad.dup(),
        token_program: addr(4),
        system_program: addr(5),
    }
}

fn atomic_accounts(s: &Scheme) -> Atomic {
    Atomic {
        creator: addr(1),
        authority: s.authority.dup(),
        global_config: s.global_config.dup(),
        platform_config: addr(2),
        pool_state: s.pool_state.dup(),
        base_vault: s.base_vault.dup(),
        quote_vault: s.quote_vault.dup(),
        metadata_account: s.metadata_account.dup(),
        base_token_mint: s.base_mint.dup(),
        quote_token_mint: s.quote_mint.dup(),
        event_authority: s.event_authority.dup(),
        rent_program: addr(3),
        metadata_program: s.metadata_program.dup(),
        raydium_launchpad_program: s.launchpad.dup(),
        token_program: addr(4),
        system_program: addr(5),
    }
}

fn args(name: &str, symbol: &str, uri: &str) -> LaunchTokenArgs {
    LaunchTokenArgs {
        name: name.as_bytes().to_vec(),
        symbol: symbol.as_bytes().to_vec(),
        uri: uri.as_bytes().to_vec(),
    }
}

fn expected_launch_data(name: &str, symbol: &str, uri: &str, target: u64) -> Vec<u8> {
    let mut d = INIT_DISC.to_vec();
    for s in [name, symbol, uri] {
        d.extend_from_slice(&(s.len() as u32).to_le_bytes());
        d.extend_from_slice(s.as_bytes());
    }
    d.push(6);
    d.push(0);
    d.extend_from_slice(&1000000000000000u64.to_le_bytes());
    d.extend_from_slice(&793100000000000u64.to_le_bytes());
    d.extend_from_slice(&target.to_le_bytes());
    d.push(1);
    d.extend_from_slice(&[0u8; 24]);
    d.push(0);
    d
}

fn buy_instruction(program: &Address) -> ScheduledInstruction {
    let mut data = BUY_DISC.to_vec();
    data.extend_from_slice(&[0u8; 24]);
    ScheduledInstruction {
        program_id: program.dup(),
        data,
    }
}

fn noise_instruction(program: &Address) -> ScheduledInstruction {
    ScheduledInstruction {
        program_id: program.dup(),
        data: vec![1, 2, 3, 4, 5, 6, 7, 8, 9],
    }
}

#[test]
fn derivation_is_deterministic() {
    let program = addr(7);
    let seeds = vec![b"vault_auth_seed".to_vec()];
    let (a1, b1) = find_program_address(&seeds, &program).unwrap();
    let (a2, b2) = find_program_address(&seeds, &program).unwrap();
    assert_eq!(a1.bytes, a2.bytes);
    assert_eq!(b1, b2);
}

#[test]
fn derivation_depends_on_seeds_and_program() {
    let program = addr(7);
    let a1 = pda(vec![b"vault_auth_seed".to_vec()], &program);
    let a2 = pda(vec![b"__event_authority".to_vec()], &program);
    let a3 = pda(vec![b"vault_auth_seed".to_vec()], &addr(8));
    assert_ne!(a1.bytes, a2.bytes);
    assert_ne!(a1.bytes, a3.bytes);
    assert_ne!(a1.bytes, program.bytes);
    assert_ne!(a1.bytes, b"vault_auth_seed".to_vec());
}

#[test]
fn derive_and_verify_accepts_the_canonical_address() {
    let program = addr(7);
    let seeds = vec![b"vault_auth_seed".to_vec()];
    let (a, bump) = find_program_address(&seeds, &program).unwrap();
    assert_eq!(derive_and_verify(&seeds, &a, &program), Ok(bump));
}

#[test]
fn derive_and_verify_rejects_a_one_byte_difference() {
    let program = addr(7);
    let seeds = vec![b"vault_auth_seed".to_vec()];
    let (a, _) = find_program_address(&seeds, &program).unwrap();
    let mut corrupt = a.bytes.clone();
    corrupt[0] = corrupt[0].wrapping_add(1);
    let supplied = Address::new(corrupt);
    assert_eq!(
        derive_and_verify(&seeds, &supplied, &program),
        Err(ErrorCode::AddressMismatch)
    );
}

#[test]
fn create_succeeds_and_pins_every_forwarded_field() {
    let s = scheme();
    let accounts = create_accounts(&s);
    let fc = create(&accounts, &args("Foo", "FOO", "ipfs://x")).unwrap();
    assert_eq!(fc.program_id.bytes, s.launchpad.bytes);
    assert_eq!(fc.data, expected_launch_data("Foo", "FOO", "ipfs://x", 12500000000));
    assert_eq!(fc.accounts.len(), 18);
    assert_eq!(fc.accounts[0].bytes, accounts.user.bytes);
    assert_eq!(fc.accounts[1].bytes, accounts.user.bytes);
    assert_eq!(fc.accounts[2].bytes, s.global_config.bytes);
    assert_eq!(fc.accounts[3].bytes, accounts.platform_config.bytes);
    assert_eq!(fc.accounts[4].bytes, s.authority.bytes);
    assert_eq!(fc.accounts[5].bytes, s.pool_state.bytes);
    assert_eq!(fc.accounts[6].bytes, s.base_mint.bytes);
    assert_eq!(fc.accounts[7].bytes, s.quote_mint.bytes);
    assert_eq!(fc.accounts[8].bytes, s.base_vault.bytes);
    assert_eq!(fc.accounts[9].bytes, s.quote_vault.bytes);
    assert_eq!(fc.accounts[10].bytes, s.metadata_account.bytes);
    assert_eq!(fc.accounts[11].bytes, accounts.token_program.bytes);
    assert_eq!(fc.accounts[12].bytes, accounts.token_program.bytes);
    assert_eq!(fc.accounts[13].bytes, s.metadata_program.bytes);
    assert_eq!(fc.accounts[14].bytes, accounts.system_program.bytes);
    assert_eq!(fc.accounts[15].bytes, accounts.rent_program.bytes);
    assert_eq!(fc.accounts[16].bytes, s.event_authority.bytes);
    assert_eq!(fc.accounts[17].bytes, s.launchpad.bytes);
}

#[test]
fn create_rejects_a_corrupted_pool_address() {
    let s = scheme();
    let mut accounts = create_accounts(&s);
    let mut corrupt = accounts.pool_state.bytes.clone();
    corrupt[31] ^= 0xff;
    accounts.pool_state = Address::new(corrupt);
    assert_eq!(
        err_of(create(&accounts, &args("Foo", "FOO", "ipfs://x"))),
        ErrorCode::AddressMismatch
    );
}

#[test]
fn create_parameters_differ_only_in_the_caller_strings() {
    let s = scheme();
    let accounts = create_accounts(&s);
    let fc1 = create(&accounts, &args("Foo", "FOO", "ipfs://x")).unwrap();
    let fc2 = create(&accounts, &args("Barbar", "BB", "ipfs://yyy")).unwrap();
    assert_eq!(fc1.program_id.bytes, fc2.program_id.bytes);
    assert_eq!(fc1.accounts.len(), fc2.accounts.len());
    for i in 0..fc1.accounts.len() {
        assert_eq!(fc1.accounts[i].bytes, fc2.accounts[i].bytes);
    }
    assert_eq!(fc1.data[..8], fc2.data[..8]);
    assert_eq!(
        fc1.data[fc1.data.len() - 52..],
        fc2.data[fc2.data.len() - 52..]
    );
}

#[test]
fn atomic_with_buy_scheduled_after_succeeds() {
    let s = scheme();
    let self_program = addr(42);
    let accounts = atomic_accounts(&s);
    let instrs = vec![
        noise_instruction(&self_program),
        buy_instruction(&self_program),
    ];
    let fc = atomic(
        &accounts,
        &args("Foo", "FOO", "ipfs://x"),
        &instrs,
        0,
        &self_program,
    )
    .unwrap();
    assert_eq!(fc.data, expected_launch_data("Foo", "FOO", "ipfs://x", 30000000000));
    assert_eq!(fc.program_id.bytes, s.launchpad.bytes);
    assert_eq!(fc.accounts.len(), 18);
    assert_eq!(fc.accounts[0].bytes, accounts.creator.bytes);
}

#[test]
fn transaction_with_atomic_then_buy_both_succeed() {
    let s = scheme();
    let self_program = addr(42);
    let instrs = vec![
        noise_instruction(&self_program),
        buy_instruction(&self_program),
    ];
    let launch = atomic(
        &atomic_accounts(&s),
        &args("Foo", "FOO", "ipfs://x"),
        &instrs,
        0,
        &self_program,
    )
    .unwrap();
    assert_eq!(launch.data, expected_launch_data("Foo", "FOO", "ipfs://x", 30000000000));
    let trade = buy(&buy_accounts(&s), 1000, 1, 0, &vec![]).unwrap();
    let mut expected = BUY_EXACT_IN_DISC.to_vec();
    expected.extend_from_slice(&1000u64.to_le_bytes());
    expected.extend_from_slice(&1u64.to_le_bytes());
    expected.extend_from_slice(&0u64.to_le_bytes());
    assert_eq!(trade.data, expected);
}

#[test]
fn atomic_allows_unrelated_instructions_between() {
    let s = scheme();
    let self_program = addr(42);
    let accounts = atomic_accounts(&s);
    let instrs = vec![
        noise_instruction(&self_program),
        noise_instruction(&addr(50)),
        noise_instruction(&addr(51)),
        noise_instruction(&addr(52)),
        buy_instruction(&self_program),
    ];
    assert!(atomic(
        &accounts,
        &args("Foo", "FOO", "ipfs://x"),
        &instrs,
        0,
        &self_program
    )
    .is_ok());
}

#[test]
fn atomic_without_follow_up_fails() {
    let s = scheme();
    let self_program = addr(42);
    let accounts = atomic_accounts(&s);
    let instrs = vec![noise_instruction(&self_program)];
    assert_eq!(
        err_of(atomic(
            &accounts,
            &args("Foo", "FOO", "ipfs://x"),
            &instrs,
            0,
            &self_program
        )),
        ErrorCode::BuyInstructionMissing
    );
}

#[test]
fn atomic_ignores_a_buy_scheduled_before_it() {
    let s = scheme();
    let self_program = addr(42);
    let accounts = atomic_accounts(&s);
    let instrs = vec![
        buy_instruction(&self_program),
        noise_instruction(&self_program),
    ];
    assert_eq!(
        err_of(atomic(
            &accounts,
            &args("Foo", "FOO", "ipfs://x"),
            &instrs,
            1,
            &self_program
        )),
        ErrorCode::BuyInstructionMissing
    );
}

#[test]
fn atomic_ignores_a_wrong_fingerprint_on_the_right_program() {
    let s = scheme();
    let self_program = addr(42);
    let accounts = atomic_accounts(&s);
    let mut wrong = BUY_EXACT_IN_DISC.to_vec();
    wrong.extend_from_slice(&[0u8; 24]);
    let instrs = vec![
        noise_instruction(&self_program),
        ScheduledInstruction {
            program_id: self_program.dup(),
            data: wrong,
        },
    ];
    assert_eq!(
        err_of(atomic(
            &accounts,
            &args("Foo", "FOO", "ipfs://x"),
            &instrs,
            0,
            &self_program
        )),
        ErrorCode::BuyInstructionMissing
    );
}

#[test]
fn atomic_ignores_a_buy_fingerprint_on_another_program() {
    let s = scheme();
    let self_program = addr(42);
    let accounts = atomic_accounts(&s);
    let instrs = vec![
        noise_instruction(&self_program),
        buy_instruction(&addr(43)),
    ];
    assert_eq!(
        err_of(atomic(
            &accounts,
            &args("Foo", "FOO", "ipfs://x"),
            &instrs,
            0,
            &self_program
        )),
        ErrorCode::BuyInstructionMissing
    );
}

#[test]
fn atomic_with_corrupted_authority_fails_before_the_guard() {
    let s = scheme();
    let self_program = addr(42);
    let mut accounts = atomic_accounts(&s);
    let mut corrupt = accounts.authority.bytes.clone();
    corrupt[5] ^= 1;
    accounts.authority = Address::new(corrupt);
    let instrs = vec![
        noise_instruction(&self_program),
        buy_instruction(&self_program),
    ];
    assert_eq!(
        err_of(atomic(
            &accounts,
            &args("Foo", "FOO", "ipfs://x"),
            &instrs,
            0,
            &self_program
        )),
        ErrorCode::AddressMismatch
    );
}

fn buy_accounts(s: &Scheme) -> Buy {
    let user = addr(1);
    let token_program = addr(4);
    let ata_program = addr(6);
    let user_base_token = pda(
        vec![
            user.bytes.clone(),
            token_program.bytes.clone(),
            s.base_mint.bytes.clone(),
        ],
        &ata_program,
    );
    let user_quote_token = pda(
        vec![
            user.bytes.clone(),
            token_program.bytes.clone(),
            s.quote_mint.bytes.clone(),
        ],
        &ata_program,
    );
    Buy {
        user,
        authority: s.authority.dup(),
        global_config: s.global_config.dup(),
        platform_config: addr(2),
        pool_state: s.pool_state.dup(),
        user_base_token,
        user_quote_token,
        base_vault: s.base_vault.dup(),
        quote_vault: s.quote_vault.dup(),
        base_token_mint: s.base_mint.dup(),
        quote_token_mint: s.quote_mint.dup(),
        event_authority: s.event_authority.dup(),
        raydium_launchpad_program: s.launchpad.dup(),
        token_program,
        system_program: addr(5),
        associated_token_program: ata_program,
    }
}

#[test]
fn buy_forwards_amounts_and_appends_extra_accounts() {
    let s = scheme();
    let accounts = buy_accounts(&s);
    let extra = vec![addr(60), addr(61)];
    let fc = buy(&accounts, 1000, 1, 0, &extra).unwrap();
    let mut expected = BUY_EXACT_IN_DISC.to_vec();
    expected.extend_from_slice(&1000u64.to_le_bytes());
    expected.extend_from_slice(&1u64.to_le_bytes());
    expected.extend_from_slice(&0u64.to_le_bytes());
    assert_eq!(fc.data, expected);
    assert_eq!(fc.program_id.bytes, s.launchpad.bytes);
    assert_eq!(fc.accounts.len(), 17);
    assert_eq!(fc.accounts[0].bytes, accounts.user.bytes);
    assert_eq!(fc.accounts[1].bytes, s.authority.bytes);
    assert_eq!(fc.accounts[5].bytes, accounts.user_base_token.bytes);
    assert_eq!(fc.accounts[6].bytes, accounts.user_quote_token.bytes);
    assert_eq!(fc.accounts[15].bytes, vec![60u8; 32]);
    assert_eq!(fc.accounts[16].bytes, vec![61u8; 32]);
}

#[test]
fn buy_rejects_a_wrong_user_token_account() {
    let s = scheme();
    let mut accounts = buy_accounts(&s);
    let mut corrupt = accounts.user_base_token.bytes.clone();
    corrupt[0] ^= 2;
    accounts.user_base_token = Address::new(corrupt);
    assert_eq!(
        err_of(buy(&accounts, 1000, 1, 0, &vec![])),
        ErrorCode::AddressMismatch
    );
}
