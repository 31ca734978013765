//! The delegated token transfer: the program checks that the presented
//! authority is its own derived address, reads the decimals from the mint,
//! and asks the token program to move the amount, signing with the seeds.
//! Performing the invocation is the host's part; this module decides whether
//! to invoke and with what.

use vstd::prelude::*;
use solana_program::program_pack::Pack;
use solana_program::pubkey::Pubkey;
use crate::accounts::{Account, AccountCursor, AccountView, Address, views};
use crate::bytes::{le_bytes, le_value, read_le};
use crate::derivation::{program_address_of, verify_derived_authority};
use crate::error::EngineError;

verus! {

/// Size of a token mint record.
pub const MINT_LEN: usize = 82;
/// Where a mint record stores its decimals.
pub const MINT_DECIMALS_OFFSET: usize = 44;

/// The arguments of a transfer instruction: the amount, little-endian.
#[derive(Debug, Clone, Copy, PartialEq, Eq, Structural)]
pub struct TransferArgs {
    pub amount: u64,
}

impl TransferArgs {
    /// Reads the arguments, which must take exactly eight bytes.
    pub fn try_from_slice(data: &[u8]) -> (r: Result<TransferArgs, EngineError>)
        ensures
            r == if data@.len() == 8 {
                Ok::<TransferArgs, EngineError>(TransferArgs { amount: le_value(data@) as u64 })
            } else {
                Err(EngineError::MalformedInstruction)
            },
    {
        if data.len() != 8 {
            return Err(EngineError::MalformedInstruction);
        }
        let amount = read_le(data, 0, 8);
        assert(data@.subrange(0, 8) =~= data@);
        Ok(TransferArgs { amount })
    }
}

/// An account as named in an instruction for another program.
#[derive(Debug, Clone, Copy, PartialEq, Eq)]
pub struct AccountMeta {
    pub pubkey: Address,
    pub is_signer: bool,
    pub is_writable: bool,
}

/// An instruction for another program.
#[derive(Debug, Clone, PartialEq, Eq)]
pub struct Instruction {
    pub program_id: Address,
    pub accounts: Vec<AccountMeta>,
    pub data: Vec<u8>,
}

/// An instruction together with the seeds that sign it for a derived authority.
#[derive(Debug, Clone, PartialEq, Eq)]
pub struct SignedInvocation {
    pub instruction: Instruction,
    pub signer_seeds: Vec<Vec<u8>>,
}

pub struct InstructionView {
    pub program_id: Seq<u8>,
    pub accounts: Seq<(Seq<u8>, bool, bool)>,
    pub data: Seq<u8>,
}

pub struct InvocationView {
    pub instruction: InstructionView,
    pub signer_seeds: Seq<Seq<u8>>,
}

impl View for AccountMeta {
    type V = (Seq<u8>, bool, bool);

    open spec fn view(&self) -> (Seq<u8>, bool, bool) {
        (self.pubkey@, self.is_signer, self.is_writable)
    }
}

impl View for Instruction {
    type V = InstructionView;

    open spec fn view(&self) -> InstructionView {
        InstructionView {
            program_id: self.program_id@,
            accounts: self.accounts@.map_values(|m: AccountMeta| m@),
            data: self.data@,
        }
    }
}

impl View for SignedInvocation {
    type V = InvocationView;

    open spec fn view(&self) -> InvocationView {
        InvocationView { instruction: self.instruction@, signer_seeds: self.signer_seeds.deep_view() }
    }
}

/// The token program's identity.
pub open spec fn token_program_key() -> Seq<u8> {
    seq![
        6u8, 221, 246, 225, 215, 101, 161, 147, 217, 203, 225, 70, 206, 235, 121, 172,
        28, 180, 133, 237, 95, 91, 55, 145, 58, 140, 245, 133, 126, 255, 0, 169,
    ]
}

/// A 4-byte option tag of a mint record: absent or present.
pub open spec fn option_tag_valid(tag: Seq<u8>) -> bool {
    tag == seq![0u8, 0, 0, 0] || tag == seq![1u8, 0, 0, 0]
}

/// `data` is an initialised mint record: the right size, both option tags
/// valid, and the initialised flag set.
pub open spec fn mint_valid(data: Seq<u8>) -> bool {
    &&& data.len() == MINT_LEN
    &&& option_tag_valid(data.subrange(0, 4))
    &&& data[45] == 1
    &&& option_tag_valid(data.subrange(46, 50))
}

/// Relies on spl_token's `Mint::unpack` (through `Pack::unpack`): it accepts
/// exactly the initialised 82-byte records with valid option tags, and the
/// decimals are byte 44.
#[verifier::external_body]
pub(crate) fn unpack_mint_decimals(data: &[u8]) -> (r: Option<u8>)
    ensures
        r == if mint_valid(data@) {
            Some(data@[MINT_DECIMALS_OFFSET as int])
        } else {
            None::<u8>
        },
{
    spl_token::state::Mint::unpack(data).ok().map(|mint| mint.decimals)
}

/// The data of a checked token transfer of `amount` with `decimals`.
pub open spec fn transfer_checked_data(amount: nat, decimals: u8) -> Seq<u8> {
    seq![12u8] + le_bytes(amount, 8) + seq![decimals]
}

/// The accounts of a checked token transfer.
pub open spec fn transfer_checked_accounts(
    source: Seq<u8>,
    mint: Seq<u8>,
    destination: Seq<u8>,
    authority: Seq<u8>,
) -> Seq<(Seq<u8>, bool, bool)> {
    seq![(source, false, true), (mint, false, false), (destination, false, true), (authority, true, false)]
}

/// Relies on spl_token's `instruction::transfer_checked` with no multisig
/// signers: it refuses any program id but the token program's, and otherwise
/// builds the instruction with opcode 12, the amount and the decimals.
#[verifier::external_body]
fn transfer_checked(
    token_program: &Address,
    source: &Address,
    mint: &Address,
    destination: &Address,
    authority: &Address,
    amount: u64,
    decimals: u8,
) -> (r: Option<Instruction>)
    ensures
        match r {
            Some(ix) => token_program@ == token_program_key() && ix@ == (InstructionView {
                program_id: token_program@,
                accounts: transfer_checked_accounts(source@, mint@, destination@, authority@),
                data: transfer_checked_data(amount as nat, decimals),
            }),
            None => token_program@ != token_program_key(),
        },
{
    let key = |a: &Address| Pubkey::new_from_array(*a);
    let ix = spl_token::instruction::transfer_checked(&key(token_program), &key(source), &key(mint),
        &key(destination), &key(authority), &[], amount, decimals).ok()?;
    let accounts = ix.accounts.iter().map(|m| AccountMeta {
        pubkey: m.pubkey.to_bytes(), is_signer: m.is_signer, is_writable: m.is_writable }).collect();
    Some(Instruction { program_id: ix.program_id.to_bytes(), accounts, data: ix.data })
}

/// The seed of the transfer authority: the ASCII bytes of "authority".
pub open spec fn authority_seed() -> Seq<u8> {
    seq![97u8, 117, 116, 104, 111, 114, 105, 116, 121]
}

/// The seed list of the transfer authority.
pub fn authority_seeds() -> (r: Vec<Vec<u8>>)
    ensures
        r.deep_view() == seq![authority_seed()],
{
    let seed: Vec<u8> = vec![97u8, 117, 116, 104, 111, 114, 105, 116, 121];
    assert(seed@ =~= authority_seed());
    assert(seed.deep_view() =~= authority_seed());
    let mut seeds: Vec<Vec<u8>> = Vec::new();
    seeds.push(seed);
    assert(seeds.deep_view() =~= seq![authority_seed()]);
    seeds
}

/// What a transfer invocation asks of the token program. The accounts are,
/// in order: source, mint, destination, authority, token program.
pub open spec fn transfer_outcome(
    program_id: Seq<u8>,
    accounts: Seq<AccountView>,
    data: Seq<u8>,
) -> Result<InvocationView, EngineError> {
    if data.len() != 8 {
        Err(EngineError::MalformedInstruction)
    } else if accounts.len() < 5 {
        Err(EngineError::MissingAccount)
    } else {
        match program_address_of(seq![authority_seed()], program_id) {
            None => Err(EngineError::InvalidSeeds),
            Some((address, bump)) => if address != accounts[3].key {
                Err(EngineError::InvalidSeeds)
            } else if !mint_valid(accounts[1].data) {
                Err(EngineError::InvalidAccountData)
            } else if accounts[4].key != token_program_key() {
                Err(EngineError::IncorrectProgramId)
            } else {
                Ok(
                    InvocationView {
                        instruction: InstructionView {
                            program_id: accounts[4].key,
                            accounts: transfer_checked_accounts(
                                accounts[0].key,
                                accounts[1].key,
                                accounts[2].key,
                                accounts[3].key,
                            ),
                            data: transfer_checked_data(
                                le_value(data),
                                accounts[1].data[MINT_DECIMALS_OFFSET as int],
                            ),
                        },
                        signer_seeds: seq![authority_seed(), seq![bump]],
                    },
                )
            },
        }
    }
}

/// Decides a transfer by the program's derived authority: the invocation to
/// perform, signed with the authority's seeds and bump, or why there is none.
/// The host performs the invocation with the five accounts, in order.
pub fn process_instruction(
    program_id: &Address,
    accounts: &[Account],
    instruction_data: &[u8],
) -> (r: Result<SignedInvocation, EngineError>)
    ensures
        match transfer_outcome(program_id@, views(accounts@), instruction_data@) {
            Ok(v) => r matches Ok(inv) && inv@ == v,
            Err(e) => r == Err::<SignedInvocation, EngineError>(e),
        },
{
    let amount = TransferArgs::try_from_slice(instruction_data)?.amount;
    proof {
        crate::bytes::lemma_le_value_bound(instruction_data@);
        reveal_with_fuel(crate::bytes::pow256, 9);
    }
    let mut cursor = AccountCursor::new();
    let source = cursor.next_account_info(accounts)?;
    let mint = cursor.next_account_info(accounts)?;
    let destination = cursor.next_account_info(accounts)?;
    let authority = cursor.next_account_info(accounts)?;
    let token_program = cursor.next_account_info(accounts)?;
    let seeds = authority_seeds();
    let bump = verify_derived_authority(&seeds, program_id, &accounts[authority].key)?;
    let decimals = match unpack_mint_decimals(accounts[mint].data.as_slice()) {
        Some(d) => d,
        None => return Err(EngineError::InvalidAccountData),
    };
    let instruction = match transfer_checked(
        &accounts[token_program].key,
        &accounts[source].key,
        &accounts[mint].key,
        &accounts[destination].key,
        &accounts[authority].key,
        amount,
        decimals,
    ) {
        Some(ix) => ix,
        None => return Err(EngineError::IncorrectProgramId),
    };
    let mut signer_seeds = seeds;
    let bump_seed: Vec<u8> = vec![bump];
    assert(bump_seed.deep_view() =~= seq![bump]);
    let ghost before = signer_seeds.deep_view();
    signer_seeds.push(bump_seed);
    assert(signer_seeds.deep_view() =~= before.push(seq![bump]));
    let inv = SignedInvocation { instruction, signer_seeds };
    let ghost vs = views(accounts@);
    assert(vs[0] == accounts@[0]@ && vs[1] == accounts@[1]@ && vs[2] == accounts@[2]@);
    assert(vs[3] == accounts@[3]@ && vs[4] == accounts@[4]@);
    assert(inv@.signer_seeds =~= seq![authority_seed(), seq![bump]]);
    Ok(inv)
}

/// The result of a transfer once the host has performed the invocation:
/// a rejection by the token program fails the whole instruction.
pub fn complete_transfer(accepted: bool) -> (r: Result<(), EngineError>)
    ensures
        r == if accepted {
            Ok::<(), EngineError>(())
        } else {
            Err(EngineError::DownstreamTransferFailure)
        },
{
    if accepted {
        Ok(())
    } else {
        Err(EngineError::DownstreamTransferFailure)
    }
}

/// A well-formed transfer whose presented authority is not the derived
/// address fails with `InvalidSeeds`.
pub proof fn lemma_other_authority_rejected(
    program_id: Seq<u8>,
    accounts: Seq<AccountView>,
    data: Seq<u8>,
)
    requires
        data.len() == 8,
        accounts.len() >= 5,
        !(program_address_of(seq![authority_seed()], program_id) matches Some((address, _))
            && address == accounts[3].key),
    ensures
        transfer_outcome(program_id, accounts, data) == Err::<InvocationView, EngineError>(
            EngineError::InvalidSeeds,
        ),
{
}

} // verus!
