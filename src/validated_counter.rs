//! The validated counter: its state record names an authority, and every
//! mutation is refused unless that authority signed the invocation.

use vstd::prelude::*;
use crate::accounts::{same_address, store_data, views, with_data, Account, AccountCursor, AccountView, Address};
use crate::bytes::{le_bytes, le_value, read_le, write_le};
use crate::codec::CounterCommand;
use crate::error::EngineError;
use crate::mutator::{apply_command, transition};

verus! {

/// Size of the validated counter's state record: an 8-byte value, then the
/// 32-byte authority address.
pub const VALIDATED_COUNTER_LEN: usize = 40;

/// The state record of the validated counter.
#[derive(Debug, Clone, Copy, PartialEq, Eq)]
pub struct CounterAccount {
    pub counter: u64,
    pub authority: Address,
}

/// The record's bytes for the given value and authority.
pub open spec fn record_bytes(counter: nat, authority: Seq<u8>) -> Seq<u8> {
    le_bytes(counter, 8) + authority
}

/// The value stored in a record.
pub open spec fn record_counter(data: Seq<u8>) -> nat {
    le_value(data.subrange(0, 8))
}

/// The authority stored in a record.
pub open spec fn record_authority(data: Seq<u8>) -> Seq<u8> {
    data.subrange(8, 40)
}

/// `authority` may act on a record whose authority is `recorded`.
pub open spec fn authorizes(authority: AccountView, recorded: Seq<u8>) -> bool {
    authority.is_signer && authority.key == recorded
}

impl CounterAccount {
    /// Reads the record from an account's data.
    pub fn try_from_slice(data: &[u8]) -> (r: Result<CounterAccount, EngineError>)
        ensures
            data@.len() != VALIDATED_COUNTER_LEN ==> r == Err::<CounterAccount, EngineError>(
                EngineError::InvalidAccountData,
            ),
            data@.len() == VALIDATED_COUNTER_LEN ==> (r matches Ok(c) && c.counter
                == record_counter(data@) && c.authority@ == record_authority(data@)),
    {
        if data.len() != VALIDATED_COUNTER_LEN {
            return Err(EngineError::InvalidAccountData);
        }
        let counter = read_le(data, 0, 8);
        let mut authority: Address = [0u8; 32];
        let mut i: usize = 0;
        while i < 32
            invariant
                i <= 32,
                data@.len() == VALIDATED_COUNTER_LEN,
                authority@.len() == 32,
                forall|j: int| 0 <= j < i ==> authority@[j] == data@[8 + j],
            decreases 32 - i,
        {
            authority[i] = data[8 + i];
            i = i + 1;
        }
        assert(authority@ =~= record_authority(data@));
        Ok(CounterAccount { counter, authority })
    }

    /// The bytes of the record.
    pub fn serialize(&self) -> (r: Vec<u8>)
        ensures
            r@ == record_bytes(self.counter as nat, self.authority@),
    {
        let mut out: Vec<u8> = Vec::new();
        write_le(self.counter, 8, &mut out);
        let mut i: usize = 0;
        let ghost head = out@;
        while i < 32
            invariant
                i <= 32,
                self.authority@.len() == 32,
                out@ == head + self.authority@.subrange(0, i as int),
            decreases 32 - i,
        {
            out.push(self.authority[i]);
            assert(out@ =~= head + self.authority@.subrange(0, i + 1));
            i = i + 1;
        }
        assert(self.authority@.subrange(0, 32) =~= self.authority@);
        out
    }
}

/// Fails with `SignerIsNotAuthority` unless `authority` signed and is the
/// authority recorded in `state`.
pub fn check_authority(state: &CounterAccount, authority: &Account) -> (r: Result<(), EngineError>)
    ensures
        r == if authorizes(authority@, state.authority@) {
            Ok::<(), EngineError>(())
        } else {
            Err(EngineError::SignerIsNotAuthority)
        },
{
    if !authority.is_signer || !same_address(&authority.key, &state.authority) {
        return Err(EngineError::SignerIsNotAuthority);
    }
    Ok(())
}

/// The accounts of an initialisation: the new record and the signer that
/// becomes its authority.
#[derive(Debug, Clone, PartialEq, Eq)]
pub struct Initialize {
    pub counter_account: CounterAccount,
    pub signer: Account,
}

/// The accounts of a mutation: the record and the authority acting on it.
#[derive(Debug, Clone, PartialEq, Eq)]
pub struct UpdateData {
    pub counter_account: CounterAccount,
    pub authority: Account,
}

/// `ctx`'s authority may act on its record.
pub open spec fn authorized(ctx: UpdateData) -> bool {
    authorizes(ctx.authority@, ctx.counter_account.authority@)
}

/// The value after `command`, when `ctx` is authorised.
pub open spec fn value_after(ctx: UpdateData, command: CounterCommand) -> nat {
    transition(command, ctx.counter_account.counter as nat, u64::MAX as nat)
}

/// What a mutation does to its accounts: an authorised one sets the value to
/// `value` and keeps everything else; any other fails and changes nothing.
pub open spec fn mutation_result(
    before: UpdateData,
    after: UpdateData,
    r: Result<(), EngineError>,
    value: nat,
) -> bool {
    if authorized(before) {
        &&& r == Ok::<(), EngineError>(())
        &&& after.counter_account.counter == value
        &&& after.counter_account.authority == before.counter_account.authority
        &&& after.authority == before.authority
    } else {
        &&& r == Err::<(), EngineError>(EngineError::SignerIsNotAuthority)
        &&& after == before
    }
}

/// Makes the signer the authority of a fresh record whose value is zero.
pub fn initialize(ctx: &mut Initialize) -> (r: Result<(), EngineError>)
    ensures
        old(ctx).signer.is_signer ==> r == Ok::<(), EngineError>(())
            && final(ctx).counter_account.counter == 0
            && final(ctx).counter_account.authority@ == old(ctx).signer.key@
            && final(ctx).signer == old(ctx).signer,
        !old(ctx).signer.is_signer ==> r == Err::<(), EngineError>(EngineError::SignerIsNotAuthority)
            && *final(ctx) == *old(ctx),
{
    if !ctx.signer.is_signer {
        return Err(EngineError::SignerIsNotAuthority);
    }
    ctx.counter_account.counter = 0;
    ctx.counter_account.authority = ctx.signer.key;
    Ok(())
}

/// Applies `command` to the record once the authority is checked against it.
pub fn execute(ctx: &mut UpdateData, command: &CounterCommand) -> (r: Result<(), EngineError>)
    ensures
        mutation_result(*old(ctx), *final(ctx), r, value_after(*old(ctx), *command)),
{
    check_authority(&ctx.counter_account, &ctx.authority)?;
    ctx.counter_account.counter = apply_command(command, ctx.counter_account.counter, u64::MAX);
    Ok(())
}

/// Adds `data` to the value, saturating at the largest `u64`.
pub fn increment(ctx: &mut UpdateData, data: u64) -> (r: Result<(), EngineError>)
    ensures
        mutation_result(*old(ctx), *final(ctx), r, value_after(*old(ctx), CounterCommand::Increment(data))),
{
    execute(ctx, &CounterCommand::Increment(data))
}

/// Subtracts `data` from the value, stopping at zero.
pub fn decrement(ctx: &mut UpdateData, data: u64) -> (r: Result<(), EngineError>)
    ensures
        mutation_result(*old(ctx), *final(ctx), r, value_after(*old(ctx), CounterCommand::Decrement(data))),
{
    execute(ctx, &CounterCommand::Decrement(data))
}

/// Sets the value to `data`.
pub fn update(ctx: &mut UpdateData, data: u64) -> (r: Result<(), EngineError>)
    ensures
        mutation_result(*old(ctx), *final(ctx), r, data as nat),
{
    execute(ctx, &CounterCommand::Update(data))
}

/// Sets the value to zero.
pub fn reset(ctx: &mut UpdateData) -> (r: Result<(), EngineError>)
    ensures
        mutation_result(*old(ctx), *final(ctx), r, 0),
{
    execute(ctx, &CounterCommand::Reset)
}

/// What an invocation of the validated counter does to its accounts: the
/// first account holds the record and must belong to the program, the second
/// is the authority.
pub open spec fn validated_outcome(
    program_id: Seq<u8>,
    accounts: Seq<AccountView>,
    data: Seq<u8>,
) -> Result<Seq<AccountView>, EngineError> {
    match CounterCommand::decode(data) {
        None => Err(EngineError::MalformedInstruction),
        Some(c) => if accounts.len() < 2 {
            Err(EngineError::MissingAccount)
        } else if accounts[0].owner != program_id {
            Err(EngineError::IllegalOwner)
        } else if accounts[0].data.len() != VALIDATED_COUNTER_LEN {
            Err(EngineError::InvalidAccountData)
        } else if !authorizes(accounts[1], record_authority(accounts[0].data)) {
            Err(EngineError::SignerIsNotAuthority)
        } else {
            let value = transition(c, record_counter(accounts[0].data), u64::MAX as nat);
            Ok(
                accounts.update(
                    0,
                    with_data(accounts[0], record_bytes(value, record_authority(accounts[0].data))),
                ),
            )
        },
    }
}

/// Runs one instruction of the validated counter over its accounts.
/// Every check precedes the single write; on error no account is changed.
pub fn process_instruction(
    program_id: &Address,
    accounts: &mut Vec<Account>,
    instruction_data: &[u8],
) -> (r: Result<(), EngineError>)
    ensures
        match validated_outcome(program_id@, views(old(accounts)@), instruction_data@) {
            Ok(after) => r == Ok::<(), EngineError>(()) && views(final(accounts)@) == after,
            Err(e) => r == Err::<(), EngineError>(e) && final(accounts)@ == old(accounts)@,
        },
{
    let command = CounterCommand::unpack(instruction_data)?;
    let mut cursor = AccountCursor::new();
    let counter_index = cursor.next_account_info(accounts.as_slice())?;
    let authority_index = cursor.next_account_info(accounts.as_slice())?;
    if !same_address(&accounts[counter_index].owner, program_id) {
        return Err(EngineError::IllegalOwner);
    }
    let mut state = CounterAccount::try_from_slice(accounts[counter_index].data.as_slice())?;
    check_authority(&state, &accounts[authority_index])?;
    state.counter = apply_command(&command, state.counter, u64::MAX);
    let bytes = state.serialize();
    store_data(accounts, counter_index, bytes);
    Ok(())
}

/// A mutating instruction presented with an authority other than the recorded
/// one fails with `SignerIsNotAuthority`, and so changes nothing.
pub proof fn lemma_wrong_authority_rejected(
    program_id: Seq<u8>,
    accounts: Seq<AccountView>,
    data: Seq<u8>,
)
    requires
        CounterCommand::decode(data) is Some,
        accounts.len() >= 2,
        accounts[0].owner == program_id,
        accounts[0].data.len() == VALIDATED_COUNTER_LEN,
        accounts[1].key != record_authority(accounts[0].data),
    ensures
        validated_outcome(program_id, accounts, data) == Err::<Seq<AccountView>, EngineError>(
            EngineError::SignerIsNotAuthority,
        ),
{
}

} // verus!
