use counter_engine::accounts::Account;
use counter_engine::codec::{CounterCommand, CounterInstructions, UpdateArgs};
use counter_engine::error::EngineError;
use counter_engine::raw_counter;
use counter_engine::validated_counter;

fn account(key: [u8; 32], owner: [u8; 32], is_signer: bool, data: Vec<u8>) -> Account {
    Account { key, owner, is_signer, is_writable: true, lamports: 0, data }
}

fn raw_value(accounts: &[Account]) -> u32 {
    raw_counter::CounterAccount::try_from_slice(&accounts[0].data).unwrap().counter
}

#[test]
fn test_counter() {
    let program_id = [0u8; 32];
    let mut accounts = vec![account([0u8; 32], [0u8; 32], false, vec![0; 4])];

    let mut increment_instruction_data: Vec<u8> = vec![0];
    let mut decrement_instruction_data: Vec<u8> = vec![1];
    let mut update_instruction_data: Vec<u8> = vec![2];
    let reset_instruction_data: Vec<u8> = vec![3];

    let increment_value: u32 = 21;
    increment_instruction_data.extend_from_slice(&increment_value.to_le_bytes());
    raw_counter::process_instruction(&program_id, &mut accounts, &increment_instruction_data).unwrap();
    assert_eq!(raw_value(&accounts), 21);

    let decrement_value: u32 = 22;
    decrement_instruction_data.extend_from_slice(&decrement_value.to_le_bytes());
    raw_counter::process_instruction(&program_id, &mut accounts, &decrement_instruction_data).unwrap();
    assert_eq!(raw_value(&accounts), 0);

    let update_value: u32 = 69;
    update_instruction_data.extend_from_slice(&update_value.to_le_bytes());
    raw_counter::process_instruction(&program_id, &mut accounts, &update_instruction_data).unwrap();
    assert_eq!(raw_value(&accounts), 69);

    raw_counter::process_instruction(&program_id, &mut accounts, &reset_instruction_data).unwrap();
    assert_eq!(raw_value(&accounts), 0);
}

#[test]
fn empty_and_unknown_opcode_are_malformed() {
    assert_eq!(CounterInstructions::unpack(&[]), Err(EngineError::MalformedInstruction));
    assert_eq!(CounterInstructions::unpack(&[9, 1, 0, 0, 0]), Err(EngineError::MalformedInstruction));
    assert_eq!(CounterInstructions::unpack(&[9]), Err(EngineError::MalformedInstruction));
    assert_eq!(CounterCommand::unpack(&[]), Err(EngineError::MalformedInstruction));
    assert_eq!(CounterCommand::unpack(&[9, 0, 0, 0, 0, 0, 0, 0, 0]), Err(EngineError::MalformedInstruction));
}

#[test]
fn payload_length_must_match_opcode() {
    assert_eq!(CounterInstructions::unpack(&[0, 1, 0, 0]), Err(EngineError::MalformedInstruction));
    assert_eq!(CounterInstructions::unpack(&[2, 1, 0, 0, 0, 0]), Err(EngineError::MalformedInstruction));
    assert_eq!(CounterInstructions::unpack(&[3, 0]), Err(EngineError::MalformedInstruction));
    assert_eq!(CounterCommand::unpack(&[1, 1, 0, 0, 0]), Err(EngineError::MalformedInstruction));
}

#[test]
fn unpack_reads_little_endian_payloads() {
    assert_eq!(
        CounterInstructions::unpack(&[1, 0x78, 0x56, 0x34, 0x12]),
        Ok(CounterInstructions::Decrement(UpdateArgs { value: 0x1234_5678 }))
    );
    assert_eq!(CounterInstructions::unpack(&[3]), Ok(CounterInstructions::Reset));
    assert_eq!(
        CounterCommand::unpack(&[2, 1, 2, 3, 4, 5, 6, 7, 8]),
        Ok(CounterCommand::Update(0x0807_0605_0403_0201))
    );
}

#[test]
fn pack_writes_opcode_then_payload() {
    assert_eq!(CounterInstructions::Increment(UpdateArgs { value: 21 }).pack(), vec![0, 21, 0, 0, 0]);
    assert_eq!(CounterInstructions::Reset.pack(), vec![3]);
    assert_eq!(CounterCommand::Decrement(256).pack(), vec![1, 0, 1, 0, 0, 0, 0, 0, 0]);
}

#[test]
fn codec_round_trips_every_variant() {
    let all = [
        CounterInstructions::Increment(UpdateArgs { value: 0 }),
        CounterInstructions::Decrement(UpdateArgs { value: u32::MAX }),
        CounterInstructions::Update(UpdateArgs { value: 69 }),
        CounterInstructions::Reset,
    ];
    for i in all {
        assert_eq!(CounterInstructions::unpack(&i.pack()), Ok(i));
    }
    let wide = [
        CounterCommand::Increment(u64::MAX),
        CounterCommand::Decrement(7),
        CounterCommand::Update(1 << 40),
        CounterCommand::Reset,
    ];
    for c in wide {
        assert_eq!(CounterCommand::unpack(&c.pack()), Ok(c));
    }
}

#[test]
fn raw_increment_saturates_at_u32_max() {
    let mut accounts = vec![account([1u8; 32], [0u8; 32], false, vec![0xfe, 0xff, 0xff, 0xff])];
    let data = CounterInstructions::Increment(UpdateArgs { value: 5 }).pack();
    raw_counter::process_instruction(&[0u8; 32], &mut accounts, &data).unwrap();
    assert_eq!(raw_value(&accounts), u32::MAX);
}

#[test]
fn raw_increment_then_decrement_returns_to_start() {
    let mut accounts = vec![account([1u8; 32], [0u8; 32], false, 40u32.to_le_bytes().to_vec())];
    raw_counter::process_instruction(&[0u8; 32], &mut accounts, &[0, 2, 0, 0, 0]).unwrap();
    assert_eq!(raw_value(&accounts), 42);
    raw_counter::process_instruction(&[0u8; 32], &mut accounts, &[1, 2, 0, 0, 0]).unwrap();
    assert_eq!(raw_value(&accounts), 40);
}

#[test]
fn raw_errors_leave_accounts_unchanged() {
    let mut none: Vec<Account> = Vec::new();
    assert_eq!(
        raw_counter::process_instruction(&[0u8; 32], &mut none, &[3]),
        Err(EngineError::MissingAccount)
    );
    let mut accounts = vec![account([1u8; 32], [0u8; 32], false, vec![5, 0, 0])];
    assert_eq!(
        raw_counter::process_instruction(&[0u8; 32], &mut accounts, &[3]),
        Err(EngineError::InvalidAccountData)
    );
    assert_eq!(accounts[0].data, vec![5, 0, 0]);
    let mut accounts = vec![account([1u8; 32], [0u8; 32], false, vec![5, 0, 0, 0])];
    assert_eq!(
        raw_counter::process_instruction(&[0u8; 32], &mut accounts, &[]),
        Err(EngineError::MalformedInstruction)
    );
    assert_eq!(raw_value(&accounts), 5);
}

const PROGRAM: [u8; 32] = [7u8; 32];
const OWNER_KEY: [u8; 32] = [9u8; 32];

fn validated_accounts(value: u64, authority: [u8; 32], signer: [u8; 32], signed: bool) -> Vec<Account> {
    let state = validated_counter::CounterAccount { counter: value, authority };
    vec![account([3u8; 32], PROGRAM, false, state.serialize()), account(signer, [0u8; 32], signed, vec![])]
}

fn validated_value(accounts: &[Account]) -> u64 {
    validated_counter::CounterAccount::try_from_slice(&accounts[0].data).unwrap().counter
}

#[test]
fn validated_scenario_with_recorded_authority() {
    let mut accounts = validated_accounts(0, OWNER_KEY, OWNER_KEY, true);
    let steps: [(CounterCommand, u64); 4] = [
        (CounterCommand::Increment(21), 21),
        (CounterCommand::Decrement(22), 0),
        (CounterCommand::Update(69), 69),
        (CounterCommand::Reset, 0),
    ];
    for (command, expected) in steps {
        validated_counter::process_instruction(&PROGRAM, &mut accounts, &command.pack()).unwrap();
        assert_eq!(validated_value(&accounts), expected);
    }
    let state = validated_counter::CounterAccount::try_from_slice(&accounts[0].data).unwrap();
    assert_eq!(state.authority, OWNER_KEY);
}

#[test]
fn validated_wrong_authority_is_rejected() {
    let mut accounts = validated_accounts(5, OWNER_KEY, [8u8; 32], true);
    let before = accounts.clone();
    assert_eq!(
        validated_counter::process_instruction(&PROGRAM, &mut accounts, &CounterCommand::Increment(1).pack()),
        Err(EngineError::SignerIsNotAuthority)
    );
    assert_eq!(accounts, before);
    assert_eq!(validated_value(&accounts), 5);
}

#[test]
fn validated_unsigned_authority_is_rejected() {
    let mut accounts = validated_accounts(5, OWNER_KEY, OWNER_KEY, false);
    assert_eq!(
        validated_counter::process_instruction(&PROGRAM, &mut accounts, &CounterCommand::Reset.pack()),
        Err(EngineError::SignerIsNotAuthority)
    );
    assert_eq!(validated_value(&accounts), 5);
}

#[test]
fn validated_checks_owner_layout_and_accounts() {
    let mut accounts = validated_accounts(5, OWNER_KEY, OWNER_KEY, true);
    assert_eq!(
        validated_counter::process_instruction(&[1u8; 32], &mut accounts, &[3]),
        Err(EngineError::IllegalOwner)
    );
    accounts.truncate(1);
    assert_eq!(
        validated_counter::process_instruction(&PROGRAM, &mut accounts, &[3]),
        Err(EngineError::MissingAccount)
    );
    let mut short = vec![account([3u8; 32], PROGRAM, false, vec![0; 39]), account(OWNER_KEY, [0u8; 32], true, vec![])];
    assert_eq!(
        validated_counter::process_instruction(&PROGRAM, &mut short, &[3]),
        Err(EngineError::InvalidAccountData)
    );
}

#[test]
fn validated_increment_saturates_at_u64_max() {
    let mut accounts = validated_accounts(u64::MAX - 1, OWNER_KEY, OWNER_KEY, true);
    validated_counter::process_instruction(&PROGRAM, &mut accounts, &CounterCommand::Increment(10).pack()).unwrap();
    assert_eq!(validated_value(&accounts), u64::MAX);
}

#[test]
fn typed_entries_check_the_authority() {
    let signer = account(OWNER_KEY, [0u8; 32], true, vec![]);
    let stranger = account([8u8; 32], [0u8; 32], true, vec![]);
    let mut init = validated_counter::Initialize {
        counter_account: validated_counter::CounterAccount { counter: 77, authority: [0u8; 32] },
        signer: signer.clone(),
    };
    validated_counter::initialize(&mut init).unwrap();
    assert_eq!(init.counter_account, validated_counter::CounterAccount { counter: 0, authority: OWNER_KEY });

    let mut ctx = validated_counter::UpdateData { counter_account: init.counter_account, authority: signer };
    validated_counter::increment(&mut ctx, 21).unwrap();
    assert_eq!(ctx.counter_account.counter, 21);
    validated_counter::decrement(&mut ctx, 22).unwrap();
    assert_eq!(ctx.counter_account.counter, 0);
    validated_counter::update(&mut ctx, 69).unwrap();
    assert_eq!(ctx.counter_account.counter, 69);

    let mut foreign = validated_counter::UpdateData { counter_account: ctx.counter_account, authority: stranger };
    assert_eq!(validated_counter::reset(&mut foreign), Err(EngineError::SignerIsNotAuthority));
    assert_eq!(foreign.counter_account.counter, 69);

    validated_counter::reset(&mut ctx).unwrap();
    assert_eq!(ctx.counter_account.counter, 0);

    let mut unsigned = validated_counter::Initialize {
        counter_account: ctx.counter_account,
        signer: account(OWNER_KEY, [0u8; 32], false, vec![]),
    };
    assert_eq!(validated_counter::initialize(&mut unsigned), Err(EngineError::SignerIsNotAuthority));
}

#[test]
fn validated_record_layout() {
    let state = validated_counter::CounterAccount { counter: 0x0102, authority: [5u8; 32] };
    let bytes = state.serialize();
    assert_eq!(bytes.len(), 40);
    assert_eq!(&bytes[..8], &[2, 1, 0, 0, 0, 0, 0, 0]);
    assert_eq!(&bytes[8..], &[5u8; 32]);
    assert_eq!(validated_counter::CounterAccount::try_from_slice(&bytes), Ok(state));
}
