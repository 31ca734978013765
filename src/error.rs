//! The errors an invocation can end with.

use vstd::prelude::*;

verus! {

/// Why an invocation failed. Every error is terminal: nothing persisted has
/// been changed when one is returned.
#[derive(Debug, Clone, Copy, PartialEq, Eq, Structural)]
pub enum EngineError {
    /// Empty instruction, unknown opcode, or a payload of the wrong shape.
    MalformedInstruction,
    /// Fewer accounts were supplied than the instruction needs.
    MissingAccount,
    /// The authority account did not sign, or is not the recorded authority.
    SignerIsNotAuthority,
    /// The presented authority is not the address derived from the seeds.
    InvalidSeeds,
    /// The invoked transfer mechanism rejected the transfer.
    DownstreamTransferFailure,
    /// An account's data does not have the expected layout.
    InvalidAccountData,
    /// The account named as a program is not the expected program.
    IncorrectProgramId,
    /// A state account is not owned by the invoking program.
    IllegalOwner,
}

} // verus!
