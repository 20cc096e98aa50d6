use vstd::prelude::*;

use crate::addr::Address;
use spl_token_2022::extension::transfer_hook::TransferHookAccount;
use spl_token_2022::extension::BaseStateWithExtensions;
use spl_token_2022::extension::StateWithExtensions;
use spl_token_2022::state::Account;

verus! {

/// The persistent invocation counter: one record per authority, counting
/// successful hook invocations.
#[derive(Clone, Copy, Debug)]
pub struct Counter {
    /// The authority that created the record.
    pub owner: Address,
    /// How many validated transfers the hook has counted; never decreases.
    pub count: u64,
}

/// The counter a fresh `initialize` produces for the given authority.
pub open spec fn spec_initial_counter(owner: Address) -> Counter {
    Counter { owner, count: 0 }
}

/// The transferring flag carried by a token account's byte buffer:
/// `None` when the buffer is malformed, of the wrong account type, or lacks
/// the transfer-hook extension block; `Some(flag)` otherwise.
pub uninterp spec fn transferring_extension(data: Seq<u8>) -> Option<bool>;

/// Relies on spl_token_2022's `StateWithExtensions::<Account>::unpack` and
/// `BaseStateWithExtensions::get_extension::<TransferHookAccount>`: a pure
/// decode of the account bytes into the base state and its extension blocks,
/// from which only the transfer-hook extension's `transferring` flag is kept.
/// The result depends on the bytes alone; neither call panics.
#[verifier::external_body]
pub(crate) fn read_transferring_flag(account_data: &[u8]) -> (r: Option<bool>)
    ensures
        r == transferring_extension(account_data@),
{
    match StateWithExtensions::<Account>::unpack(account_data) {
        Ok(state) => match state.get_extension::<TransferHookAccount>() {
            Ok(extension) => Some(bool::from(extension.transferring)),
            Err(_) => None,
        },
        Err(_) => None,
    }
}

} // verus!
