use vstd::prelude::*;

verus! {

/// Every failure the hook program can report.
#[derive(Clone, Copy, Debug, PartialEq, Eq, Structural)]
pub enum HookError {
    /// The derived storage address is already occupied.
    AlreadyInitialized,
    /// The supplied bump seed does not reproduce the expected derived address.
    InvalidSeeds,
    /// The runtime rejected the storage allocation or assignment.
    AllocationFailed,
    /// The decoded account lacks the transfer-hook extension block, or the
    /// account bytes are malformed or of the wrong account type.
    MissingTransferHookExtension,
    /// The extension is present but its transferring flag is false: the hook
    /// was invoked outside of a genuine in-flight transfer.
    ProgramCalledOutsideOfTransfer,
    /// The fallback path saw an unrecognized tag or a truncated payload.
    InvalidInstructionData,
    /// Incrementing the invocation counter would wrap.
    CounterOverflow,
}

} // verus!
