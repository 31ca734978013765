//! The unvalidated counter: its state record holds only the value, so any
//! caller that can name the account can change it. This is the variant's
//! documented behaviour, kept as it is; the validated counter adds an
//! authority.

use vstd::prelude::*;
use crate::accounts::{store_data, views, with_data, Account, AccountCursor, AccountView, Address};
use crate::bytes::{le_bytes, le_value, read_le, write_le};
use crate::codec::CounterInstructions;
use crate::error::EngineError;
use crate::mutator::{apply_command, transition};

verus! {

/// Size of the unvalidated counter's state record.
pub const RAW_COUNTER_LEN: usize = 4;

/// The state record of the unvalidated counter.
#[derive(Debug, Clone, Copy, PartialEq, Eq, Structural)]
pub struct CounterAccount {
    pub counter: u32,
}

impl CounterAccount {
    /// The record stored in `data`, if it has the record's exact size.
    pub open spec fn decode(data: Seq<u8>) -> Option<CounterAccount> {
        if data.len() == RAW_COUNTER_LEN {
            Some(CounterAccount { counter: le_value(data) as u32 })
        } else {
            None
        }
    }

    /// Reads the record from an account's data.
    pub fn try_from_slice(data: &[u8]) -> (r: Result<CounterAccount, EngineError>)
        ensures
            r == match CounterAccount::decode(data@) {
                Some(c) => Ok(c),
                None => Err(EngineError::InvalidAccountData),
            },
    {
        if data.len() != RAW_COUNTER_LEN {
            return Err(EngineError::InvalidAccountData);
        }
        let v = read_le(data, 0, RAW_COUNTER_LEN);
        assert(data@.subrange(0, 4) =~= data@);
        proof {
            crate::bytes::lemma_le_value_bound(data@);
            reveal_with_fuel(crate::bytes::pow256, 5);
        }
        Ok(CounterAccount { counter: v as u32 })
    }

    /// The bytes of the record.
    pub fn serialize(&self) -> (r: Vec<u8>)
        ensures
            r@ == le_bytes(self.counter as nat, RAW_COUNTER_LEN as nat),
    {
        let mut out: Vec<u8> = Vec::new();
        write_le(self.counter as u64, RAW_COUNTER_LEN, &mut out);
        assert(out@ =~= le_bytes(self.counter as nat, RAW_COUNTER_LEN as nat));
        out
    }
}

/// What an invocation of the unvalidated counter does to its accounts: the
/// first account's data is the counter, which the decoded instruction changes.
pub open spec fn raw_outcome(accounts: Seq<AccountView>, data: Seq<u8>) -> Result<
    Seq<AccountView>,
    EngineError,
> {
    match CounterInstructions::decode(data) {
        None => Err(EngineError::MalformedInstruction),
        Some(i) => if accounts.len() == 0 {
            Err(EngineError::MissingAccount)
        } else if accounts[0].data.len() != RAW_COUNTER_LEN {
            Err(EngineError::InvalidAccountData)
        } else {
            let value = transition(i.widen(), le_value(accounts[0].data), u32::MAX as nat);
            Ok(
                accounts.update(
                    0,
                    with_data(accounts[0], le_bytes(value, RAW_COUNTER_LEN as nat)),
                ),
            )
        },
    }
}

/// Runs one instruction of the unvalidated counter over its accounts.
/// On error no account is changed.
pub fn process_instruction(
    _program_id: &Address,
    accounts: &mut Vec<Account>,
    instruction_data: &[u8],
) -> (r: Result<(), EngineError>)
    ensures
        match raw_outcome(views(old(accounts)@), instruction_data@) {
            Ok(after) => r == Ok::<(), EngineError>(()) && views(final(accounts)@) == after,
            Err(e) => r == Err::<(), EngineError>(e) && final(accounts)@ == old(accounts)@,
        },
{
    let instruction = CounterInstructions::unpack(instruction_data)?;
    let mut cursor = AccountCursor::new();
    let index = cursor.next_account_info(accounts.as_slice())?;
    let mut state = CounterAccount::try_from_slice(accounts[index].data.as_slice())?;
    proof {
        crate::bytes::lemma_le_value_bound(accounts@[0].data@);
        reveal_with_fuel(crate::bytes::pow256, 5);
    }
    let value = apply_command(&instruction.widened(), state.counter as u64, u32::MAX as u64);
    state.counter = value as u32;
    let bytes = state.serialize();
    store_data(accounts, index, bytes);
    Ok(())
}

} // verus!
