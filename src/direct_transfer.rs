//! Transfers authorised by the sender's own signature. The account checks
//! that a declarative framework would attach to the accounts are written out
//! here and run before the instruction is built.

use vstd::prelude::*;
use solana_program::pubkey::Pubkey;
use crate::accounts::{address_bytes, same_address, Account, Address};
use crate::bytes::le_bytes;
use crate::error::EngineError;
use crate::derivation::{program_address_of, verify_derived_authority};
use crate::transfer::{mint_valid, token_program_key, unpack_mint_decimals, AccountMeta, Instruction, InstructionView};

verus! {

/// The system program's identity: all zero bytes.
pub open spec fn system_program_key() -> Seq<u8> {
    Seq::new(32, |i: int| 0u8)
}

/// The data of a system transfer of `lamports`.
pub open spec fn system_transfer_data(lamports: nat) -> Seq<u8> {
    seq![2u8, 0, 0, 0] + le_bytes(lamports, 8)
}

/// The data of an unchecked token transfer of `amount`.
pub open spec fn token_transfer_data(amount: nat) -> Seq<u8> {
    seq![3u8] + le_bytes(amount, 8)
}

/// Relies on solana_program's `system_instruction::transfer`: a system
/// program instruction naming the funding account as writable signer and the
/// recipient as writable, whose data is the bincode form of the transfer
/// variant (tag 2 as four bytes, then the amount).
#[verifier::external_body]
fn system_transfer(from: &Address, to: &Address, lamports: u64) -> (r: Instruction)
    ensures
        r@ == (InstructionView {
            program_id: system_program_key(),
            accounts: seq![(from@, true, true), (to@, false, true)],
            data: system_transfer_data(lamports as nat),
        }),
{
    let ix = solana_program::system_instruction::transfer(&Pubkey::new_from_array(*from),
        &Pubkey::new_from_array(*to), lamports);
    let accounts = ix.accounts.iter().map(|m| AccountMeta {
        pubkey: m.pubkey.to_bytes(), is_signer: m.is_signer, is_writable: m.is_writable }).collect();
    Instruction { program_id: ix.program_id.to_bytes(), accounts, data: ix.data }
}

/// Relies on spl_token's `instruction::transfer` with no multisig signers: it
/// refuses any program id but the token program's, and otherwise builds the
/// instruction with opcode 3 and the amount.
#[verifier::external_body]
fn token_transfer(token_program: &Address, source: &Address, destination: &Address, authority: &Address, amount: u64) -> (r: Option<Instruction>)
    ensures
        match r {
            Some(ix) => token_program@ == token_program_key() && ix@ == (InstructionView {
                program_id: token_program@,
                accounts: seq![(source@, false, true), (destination@, false, true), (authority@, true, false)],
                data: token_transfer_data(amount as nat),
            }),
            None => token_program@ != token_program_key(),
        },
{
    let key = |a: &Address| Pubkey::new_from_array(*a);
    let ix = spl_token::instruction::transfer(&key(token_program), &key(source),
        &key(destination), &key(authority), &[], amount).ok()?;
    let accounts = ix.accounts.iter().map(|m| AccountMeta {
        pubkey: m.pubkey.to_bytes(), is_signer: m.is_signer, is_writable: m.is_writable }).collect();
    Some(Instruction { program_id: ix.program_id.to_bytes(), accounts, data: ix.data })
}

/// Whether `a` is the system program's identity.
fn is_system_program(a: &Address) -> (r: bool)
    ensures
        r == (a@ == system_program_key()),
{
    let zero: Address = [0u8; 32];
    assert(zero@ =~= system_program_key());
    same_address(a, &zero)
}

/// The accounts of a lamport transfer.
#[derive(Debug, Clone, PartialEq, Eq)]
pub struct SolTransfer {
    pub from: Account,
    pub to: Account,
    pub system_program: Account,
}

/// Moves `amount` lamports from a signing account to a system-owned account:
/// the system program instruction to invoke, or why there is none.
pub fn sol_transfer(ctx: &SolTransfer, amount: u64) -> (r: Result<Instruction, EngineError>)
    ensures
        !ctx.from.is_signer ==> r == Err::<Instruction, EngineError>(EngineError::SignerIsNotAuthority),
        ctx.from.is_signer && ctx.to.owner@ != system_program_key() ==> r == Err::<Instruction, EngineError>(
            EngineError::IllegalOwner,
        ),
        ctx.from.is_signer && ctx.to.owner@ == system_program_key() && ctx.system_program.key@
            != system_program_key() ==> r == Err::<Instruction, EngineError>(EngineError::IncorrectProgramId),
        ctx.from.is_signer && ctx.to.owner@ == system_program_key() && ctx.system_program.key@
            == system_program_key() ==> (r matches Ok(ix) && ix@ == (InstructionView {
            program_id: system_program_key(),
            accounts: seq![(ctx.from.key@, true, true), (ctx.to.key@, false, true)],
            data: system_transfer_data(amount as nat),
        })),
{
    if !ctx.from.is_signer {
        return Err(EngineError::SignerIsNotAuthority);
    }
    if !is_system_program(&ctx.to.owner) {
        return Err(EngineError::IllegalOwner);
    }
    if !is_system_program(&ctx.system_program.key) {
        return Err(EngineError::IncorrectProgramId);
    }
    Ok(system_transfer(&ctx.from.key, &ctx.to.key, amount))
}

/// The associated token program's identity.
pub open spec fn associated_token_program_key() -> Seq<u8> {
    seq![
        140u8, 151, 37, 143, 78, 36, 137, 241, 187, 61, 16, 41, 20, 142, 13, 131,
        11, 90, 19, 153, 218, 255, 16, 132, 4, 142, 123, 216, 219, 233, 248, 89,
    ]
}

/// The associated token account of `wallet` for `mint`: the address derived
/// from the wallet, the token program and the mint under the associated token
/// program.
pub open spec fn associated_token_address(wallet: Seq<u8>, mint: Seq<u8>) -> Option<(Seq<u8>, u8)> {
    program_address_of(seq![wallet, token_program_key(), mint], associated_token_program_key())
}

/// `account` is the associated token account of `wallet` for `mint`.
pub open spec fn is_associated_token_account(account: Seq<u8>, wallet: Seq<u8>, mint: Seq<u8>) -> bool {
    associated_token_address(wallet, mint) matches Some((address, _)) && address == account
}

/// The accounts of a token transfer between the associated token accounts of
/// a signing sender and a recipient.
#[derive(Debug, Clone, PartialEq, Eq)]
pub struct TransferTokens {
    pub sender: Account,
    pub recipient: Account,
    pub mint_account: Account,
    pub sender_token_account: Account,
    pub recipient_token_account: Account,
    pub token_program: Account,
    pub associated_token_program: Account,
    pub system_program: Account,
}

/// Why the accounts of a token transfer are refused, if they are; the checks
/// run over the accounts in order, the three programs last.
pub open spec fn token_transfer_refusal(ctx: TransferTokens) -> Option<EngineError> {
    if !ctx.sender.is_signer {
        Some(EngineError::SignerIsNotAuthority)
    } else if ctx.recipient.owner@ != system_program_key() {
        Some(EngineError::IllegalOwner)
    } else if ctx.mint_account.owner@ != token_program_key() {
        Some(EngineError::IllegalOwner)
    } else if !mint_valid(ctx.mint_account.data@) {
        Some(EngineError::InvalidAccountData)
    } else if !is_associated_token_account(ctx.sender_token_account.key@, ctx.sender.key@, ctx.mint_account.key@) {
        Some(EngineError::InvalidSeeds)
    } else if !is_associated_token_account(ctx.recipient_token_account.key@, ctx.recipient.key@, ctx.mint_account.key@) {
        Some(EngineError::InvalidSeeds)
    } else if ctx.associated_token_program.key@ != associated_token_program_key() {
        Some(EngineError::IncorrectProgramId)
    } else if ctx.system_program.key@ != system_program_key() {
        Some(EngineError::IncorrectProgramId)
    } else if ctx.token_program.key@ != token_program_key() {
        Some(EngineError::IncorrectProgramId)
    } else {
        None
    }
}

/// The token program's identity as an address.
fn token_program_id() -> (r: Address)
    ensures
        r@ == token_program_key(),
{
    let k: Address = [
        6u8, 221, 246, 225, 215, 101, 161, 147, 217, 203, 225, 70, 206, 235, 121, 172,
        28, 180, 133, 237, 95, 91, 55, 145, 58, 140, 245, 133, 126, 255, 0, 169,
    ];
    assert(k@ =~= token_program_key());
    k
}

/// The associated token program's identity as an address.
fn associated_token_program_id() -> (r: Address)
    ensures
        r@ == associated_token_program_key(),
{
    let k: Address = [
        140u8, 151, 37, 143, 78, 36, 137, 241, 187, 61, 16, 41, 20, 142, 13, 131,
        11, 90, 19, 153, 218, 255, 16, 132, 4, 142, 123, 216, 219, 233, 248, 89,
    ];
    assert(k@ =~= associated_token_program_key());
    k
}

/// Fails with `InvalidSeeds` unless `account` is the associated token account
/// of `wallet` for `mint`.
pub fn check_associated_token_account(account: &Address, wallet: &Address, mint: &Address) -> (r: Result<
    (),
    EngineError,
>)
    ensures
        r == if is_associated_token_account(account@, wallet@, mint@) {
            Ok::<(), EngineError>(())
        } else {
            Err(EngineError::InvalidSeeds)
        },
{
    let mut seeds: Vec<Vec<u8>> = Vec::new();
    seeds.push(address_bytes(wallet));
    seeds.push(address_bytes(&token_program_id()));
    seeds.push(address_bytes(mint));
    assert(seeds.deep_view() =~= seq![wallet@, token_program_key(), mint@]);
    match verify_derived_authority(&seeds, &associated_token_program_id(), account) {
        Ok(_) => Ok(()),
        Err(e) => Err(e),
    }
}

/// Moves `amount` tokens from the sender's associated token account to the
/// recipient's, on the sender's signature: the token program instruction to
/// invoke, or why there is none.
pub fn spl_token_transfer(ctx: &TransferTokens, amount: u64) -> (r: Result<Instruction, EngineError>)
    ensures
        match token_transfer_refusal(*ctx) {
            Some(e) => r == Err::<Instruction, EngineError>(e),
            None => r matches Ok(ix) && ix@ == (InstructionView {
                program_id: token_program_key(),
                accounts: seq![
                    (ctx.sender_token_account.key@, false, true),
                    (ctx.recipient_token_account.key@, false, true),
                    (ctx.sender.key@, true, false),
                ],
                data: token_transfer_data(amount as nat),
            }),
        },
{
    if !ctx.sender.is_signer {
        return Err(EngineError::SignerIsNotAuthority);
    }
    if !is_system_program(&ctx.recipient.owner) {
        return Err(EngineError::IllegalOwner);
    }
    if !same_address(&ctx.mint_account.owner, &token_program_id()) {
        return Err(EngineError::IllegalOwner);
    }
    if unpack_mint_decimals(ctx.mint_account.data.as_slice()).is_none() {
        return Err(EngineError::InvalidAccountData);
    }
    check_associated_token_account(&ctx.sender_token_account.key, &ctx.sender.key, &ctx.mint_account.key)?;
    check_associated_token_account(&ctx.recipient_token_account.key, &ctx.recipient.key, &ctx.mint_account.key)?;
    if !same_address(&ctx.associated_token_program.key, &associated_token_program_id()) {
        return Err(EngineError::IncorrectProgramId);
    }
    if !is_system_program(&ctx.system_program.key) {
        return Err(EngineError::IncorrectProgramId);
    }
    match token_transfer(
        &ctx.token_program.key,
        &ctx.sender_token_account.key,
        &ctx.recipient_token_account.key,
        &ctx.sender.key,
        amount,
    ) {
        Some(ix) => Ok(ix),
        None => Err(EngineError::IncorrectProgramId),
    }
}

} // verus!
