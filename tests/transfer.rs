use counter_engine::accounts::Account;
use counter_engine::derivation::{derive_authority, verify_derived_authority};
use counter_engine::direct_transfer::{sol_transfer, spl_token_transfer, SolTransfer, TransferTokens};
use counter_engine::error::EngineError;
use counter_engine::transfer::{authority_seeds, complete_transfer, process_instruction, AccountMeta, TransferArgs};
use solana_program::pubkey::Pubkey;
use std::str::FromStr;

const PROGRAM: [u8; 32] = [42u8; 32];

fn account(key: [u8; 32], data: Vec<u8>) -> Account {
    Account { key, owner: [0u8; 32], is_signer: false, is_writable: true, lamports: 0, data }
}

fn mint_record(decimals: u8) -> Vec<u8> {
    let mut data = vec![0u8; 82];
    data[44] = decimals;
    data[45] = 1;
    data
}

fn derived() -> ([u8; 32], u8) {
    derive_authority(&authority_seeds(), &PROGRAM).unwrap()
}

fn transfer_accounts(authority: [u8; 32], mint: Vec<u8>, token_program: [u8; 32]) -> Vec<Account> {
    vec![
        account([1u8; 32], vec![]),
        account([2u8; 32], mint),
        account([3u8; 32], vec![]),
        account(authority, vec![]),
        account(token_program, vec![]),
    ]
}

#[test]
fn derivation_matches_solana_and_is_deterministic() {
    let (address, bump) = derived();
    let (expected, expected_bump) =
        Pubkey::find_program_address(&[b"authority"], &Pubkey::new_from_array(PROGRAM));
    assert_eq!(address, expected.to_bytes());
    assert_eq!(bump, expected_bump);
    assert_eq!(derived(), (address, bump));
    assert_eq!(authority_seeds(), vec![b"authority".to_vec()]);
}

#[test]
fn verify_rejects_any_other_address() {
    let (address, bump) = derived();
    assert_eq!(verify_derived_authority(&authority_seeds(), &PROGRAM, &address), Ok(bump));
    let mut other = address;
    other[0] ^= 1;
    assert_eq!(verify_derived_authority(&authority_seeds(), &PROGRAM, &other), Err(EngineError::InvalidSeeds));
}

#[test]
fn transfer_builds_signed_transfer_checked() {
    let (address, bump) = derived();
    let token = spl_token::id().to_bytes();
    let accounts = transfer_accounts(address, mint_record(6), token);
    let inv = process_instruction(&PROGRAM, &accounts, &1000u64.to_le_bytes()).unwrap();
    assert_eq!(inv.instruction.program_id, token);
    let mut data = vec![12u8];
    data.extend_from_slice(&1000u64.to_le_bytes());
    data.push(6);
    assert_eq!(inv.instruction.data, data);
    assert_eq!(
        inv.instruction.accounts,
        vec![
            AccountMeta { pubkey: [1u8; 32], is_signer: false, is_writable: true },
            AccountMeta { pubkey: [2u8; 32], is_signer: false, is_writable: false },
            AccountMeta { pubkey: [3u8; 32], is_signer: false, is_writable: true },
            AccountMeta { pubkey: address, is_signer: true, is_writable: false },
        ]
    );
    assert_eq!(inv.signer_seeds, vec![b"authority".to_vec(), vec![bump]]);
}

#[test]
fn transfer_with_other_authority_fails_with_invalid_seeds() {
    let token = spl_token::id().to_bytes();
    let accounts = transfer_accounts([4u8; 32], mint_record(6), token);
    assert_eq!(process_instruction(&PROGRAM, &accounts, &5u64.to_le_bytes()), Err(EngineError::InvalidSeeds));
}

#[test]
fn transfer_errors() {
    let (address, _) = derived();
    let token = spl_token::id().to_bytes();
    let accounts = transfer_accounts(address, mint_record(6), token);
    assert_eq!(process_instruction(&PROGRAM, &accounts, &[1, 2, 3]), Err(EngineError::MalformedInstruction));
    assert_eq!(process_instruction(&PROGRAM, &accounts[..4], &5u64.to_le_bytes()), Err(EngineError::MissingAccount));
    let mut uninitialised = mint_record(6);
    uninitialised[45] = 0;
    let bad_mint = transfer_accounts(address, uninitialised, token);
    assert_eq!(process_instruction(&PROGRAM, &bad_mint, &5u64.to_le_bytes()), Err(EngineError::InvalidAccountData));
    let short_mint = transfer_accounts(address, vec![0u8; 81], token);
    assert_eq!(process_instruction(&PROGRAM, &short_mint, &5u64.to_le_bytes()), Err(EngineError::InvalidAccountData));
    let wrong_program = transfer_accounts(address, mint_record(6), [9u8; 32]);
    assert_eq!(process_instruction(&PROGRAM, &wrong_program, &5u64.to_le_bytes()), Err(EngineError::IncorrectProgramId));
}

#[test]
fn transfer_args_take_eight_bytes() {
    assert_eq!(TransferArgs::try_from_slice(&[1, 1, 0, 0, 0, 0, 0, 0]), Ok(TransferArgs { amount: 257 }));
    assert_eq!(TransferArgs::try_from_slice(&[1; 9]), Err(EngineError::MalformedInstruction));
}

#[test]
fn downstream_rejection_fails_the_transfer() {
    assert_eq!(complete_transfer(true), Ok(()));
    assert_eq!(complete_transfer(false), Err(EngineError::DownstreamTransferFailure));
}

#[test]
fn sol_transfer_builds_system_transfer() {
    let mut from = account([1u8; 32], vec![]);
    from.is_signer = true;
    let ctx = SolTransfer { from, to: account([2u8; 32], vec![]), system_program: account([0u8; 32], vec![]) };
    let ix = sol_transfer(&ctx, 500).unwrap();
    assert_eq!(ix.program_id, [0u8; 32]);
    assert_eq!(ix.data, vec![2, 0, 0, 0, 244, 1, 0, 0, 0, 0, 0, 0]);
    assert_eq!(
        ix.accounts,
        vec![
            AccountMeta { pubkey: [1u8; 32], is_signer: true, is_writable: true },
            AccountMeta { pubkey: [2u8; 32], is_signer: false, is_writable: true },
        ]
    );
    let mut owned = ctx.clone();
    owned.to.owner = [5u8; 32];
    assert_eq!(sol_transfer(&owned, 1), Err(EngineError::IllegalOwner));
    let mut wrong_program = ctx.clone();
    wrong_program.system_program.key = [5u8; 32];
    assert_eq!(sol_transfer(&wrong_program, 1), Err(EngineError::IncorrectProgramId));
    let mut unsigned = ctx.clone();
    unsigned.from.is_signer = false;
    assert_eq!(sol_transfer(&unsigned, 1), Err(EngineError::SignerIsNotAuthority));
}

fn associated_account(wallet: [u8; 32], mint: [u8; 32]) -> [u8; 32] {
    let ata_program = Pubkey::from_str("ATokenGPvbdGVxr1b2hvZbsiqW5xWH25efTNsLJA8knL").unwrap();
    let token = spl_token::id().to_bytes();
    Pubkey::find_program_address(&[&wallet, &token, &mint], &ata_program).0.to_bytes()
}

fn token_transfer_ctx() -> TransferTokens {
    let token = spl_token::id().to_bytes();
    let ata_program = Pubkey::from_str("ATokenGPvbdGVxr1b2hvZbsiqW5xWH25efTNsLJA8knL").unwrap().to_bytes();
    let (sender_key, recipient_key, mint_key) = ([1u8; 32], [2u8; 32], [3u8; 32]);
    let mut sender = account(sender_key, vec![]);
    sender.is_signer = true;
    let mut mint_account = account(mint_key, mint_record(9));
    mint_account.owner = token;
    TransferTokens {
        sender,
        recipient: account(recipient_key, vec![]),
        mint_account,
        sender_token_account: account(associated_account(sender_key, mint_key), vec![]),
        recipient_token_account: account(associated_account(recipient_key, mint_key), vec![]),
        token_program: account(token, vec![]),
        associated_token_program: account(ata_program, vec![]),
        system_program: account([0u8; 32], vec![]),
    }
}

#[test]
fn spl_token_transfer_builds_token_transfer() {
    let ctx = token_transfer_ctx();
    let ix = spl_token_transfer(&ctx, 7).unwrap();
    assert_eq!(ix.program_id, spl_token::id().to_bytes());
    assert_eq!(ix.data, vec![3, 7, 0, 0, 0, 0, 0, 0, 0]);
    assert_eq!(
        ix.accounts,
        vec![
            AccountMeta { pubkey: ctx.sender_token_account.key, is_signer: false, is_writable: true },
            AccountMeta { pubkey: ctx.recipient_token_account.key, is_signer: false, is_writable: true },
            AccountMeta { pubkey: [1u8; 32], is_signer: true, is_writable: false },
        ]
    );
}

#[test]
fn spl_token_transfer_refusals() {
    let ctx = token_transfer_ctx();
    let mut c = ctx.clone();
    c.sender.is_signer = false;
    assert_eq!(spl_token_transfer(&c, 7), Err(EngineError::SignerIsNotAuthority));
    let mut c = ctx.clone();
    c.recipient.owner = [4u8; 32];
    assert_eq!(spl_token_transfer(&c, 7), Err(EngineError::IllegalOwner));
    let mut c = ctx.clone();
    c.mint_account.owner = [4u8; 32];
    assert_eq!(spl_token_transfer(&c, 7), Err(EngineError::IllegalOwner));
    let mut c = ctx.clone();
    c.mint_account.data[0] = 2;
    assert_eq!(spl_token_transfer(&c, 7), Err(EngineError::InvalidAccountData));
    let mut c = ctx.clone();
    c.sender_token_account.key = [4u8; 32];
    assert_eq!(spl_token_transfer(&c, 7), Err(EngineError::InvalidSeeds));
    let mut c = ctx.clone();
    c.recipient_token_account.key = ctx.sender_token_account.key;
    assert_eq!(spl_token_transfer(&c, 7), Err(EngineError::InvalidSeeds));
    let mut c = ctx.clone();
    c.associated_token_program.key = [4u8; 32];
    assert_eq!(spl_token_transfer(&c, 7), Err(EngineError::IncorrectProgramId));
    let mut c = ctx.clone();
    c.system_program.key = [4u8; 32];
    assert_eq!(spl_token_transfer(&c, 7), Err(EngineError::IncorrectProgramId));
    let mut c = ctx.clone();
    c.token_program.key = [4u8; 32];
    assert_eq!(spl_token_transfer(&c, 7), Err(EngineError::IncorrectProgramId));
}
