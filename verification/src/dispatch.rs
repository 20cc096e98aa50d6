use vstd::prelude::*;

use vstd::bytes::spec_u64_from_le_bytes;
use vstd::bytes::u64_from_le_bytes;
use vstd::slice::slice_subrange;

use crate::addr::Address;
use crate::error::HookError;
use crate::hook::spec_counter_after;
use crate::hook::spec_hook_error;
use crate::hook::transfer_hook;
use crate::hook::HookReceipt;
use crate::hook::TransferHook;
use crate::state::transferring_extension;
use crate::tlv::execute_ix_tag_le;
use crate::tlv::execute_tag;

verus! {

/// Whether raw instruction bytes select the hook: the first 8 bytes must be
/// the external interface's execute tag, and a full 8-byte amount must
/// follow.
pub open spec fn spec_fallback_matches(ix: Seq<u8>) -> bool {
    ix.len() >= 16 && ix.subrange(0, 8) == execute_tag()
}

/// The little-endian amount carried after the tag.
pub open spec fn spec_fallback_amount(ix: Seq<u8>) -> u64 {
    spec_u64_from_le_bytes(ix.subrange(8, 16))
}

/// Route a raw invocation: instructions whose first 8 bytes are the external
/// interface's fixed execute tag go to the transfer validator with the 8-byte
/// little-endian amount that follows; anything else - an unrecognized tag or
/// a truncated buffer - is rejected with `InvalidInstructionData` and no side
/// effect.
pub fn fallback(program_id: &Address, accounts: &mut TransferHook, ix_data: &[u8]) -> (r: Result<
    HookReceipt,
    HookError,
>)
    ensures
        !spec_fallback_matches(ix_data@) ==> r == Result::<HookReceipt, HookError>::Err(
            HookError::InvalidInstructionData,
        ) && *final(accounts) == *old(accounts),
        spec_fallback_matches(ix_data@) ==> {
            &&& final(accounts).counter == spec_counter_after(
                transferring_extension(old(accounts).source@),
                transferring_extension(old(accounts).destination@),
                old(accounts).counter,
            )
            &&& (r matches Err(e) ==> spec_hook_error(
                transferring_extension(old(accounts).source@),
                transferring_extension(old(accounts).destination@),
                old(accounts).counter.count,
            ) == Some(e))
            &&& (r is Ok <==> spec_hook_error(
                transferring_extension(old(accounts).source@),
                transferring_extension(old(accounts).destination@),
                old(accounts).counter.count,
            ) is None)
            &&& (r matches Ok(receipt) ==> receipt.amount == spec_fallback_amount(ix_data@)
                && receipt.extra_account@ == old(accounts).extra_account@ && receipt.count == old(
                accounts,
            ).counter.count + 1)
            &&& (r is Err ==> final(accounts).counter == old(accounts).counter)
        },
        final(accounts).source == old(accounts).source,
        final(accounts).mint == old(accounts).mint,
        final(accounts).destination == old(accounts).destination,
        final(accounts).authority == old(accounts).authority,
        final(accounts).extra_account == old(accounts).extra_account,
{
    if ix_data.len() < 16 {
        return Result::Err(HookError::InvalidInstructionData);
    }
    let tag = execute_ix_tag_le();
    let mut i: usize = 0;
    while i < 8
        invariant
            i <= 8,
            ix_data@.len() >= 16,
            tag@ == execute_tag(),
            forall|j: int| 0 <= j < i ==> ix_data@[j] == tag@[j],
        decreases 8 - i,
    {
        if ix_data[i] != tag[i] {
            proof {
                assert(ix_data@.subrange(0, 8)[i as int] != execute_tag()[i as int]);
            }
            return Result::Err(HookError::InvalidInstructionData);
        }
        i = i + 1;
    }
    proof {
        assert(ix_data@.subrange(0, 8) =~= execute_tag());
    }
    let amount = u64_from_le_bytes(slice_subrange(ix_data, 8, 16));
    transfer_hook(accounts, amount)
}

} // verus!
