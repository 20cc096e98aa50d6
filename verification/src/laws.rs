use vstd::prelude::*;

use crate::addr::Address;
use crate::error::HookError;
use crate::hook::spec_config_data;
use crate::hook::spec_counter_after;
use crate::hook::spec_counter_entry;
use crate::hook::spec_hook_error;
use crate::state::spec_initial_counter;
use crate::state::Counter;
use crate::tlv::lemma_meta_list_round_trip;
use crate::tlv::spec_decode_meta_list;

verus! {

/// The counter left by a sequence of hook invocations, each described by the
/// transferring flags the decoder reported for its source and destination.
pub open spec fn apply_invocations(c: Counter, evs: Seq<(Option<bool>, Option<bool>)>) -> Counter
    decreases evs.len(),
{
    if evs.len() == 0 {
        c
    } else {
        apply_invocations(spec_counter_after(evs[0].0, evs[0].1, c), evs.drop_first())
    }
}

/// No single invocation, successful or not, ever decreases the counter, and
/// none touches its owner.
pub proof fn lemma_invocation_never_decreases(src: Option<bool>, dst: Option<bool>, c: Counter)
    ensures
        spec_counter_after(src, dst, c).count >= c.count,
        spec_counter_after(src, dst, c).owner == c.owner,
{
}

/// No sequence of invocations ever decreases the counter.
pub proof fn lemma_run_never_decreases(c: Counter, evs: Seq<(Option<bool>, Option<bool>)>)
    ensures
        apply_invocations(c, evs).count >= c.count,
        apply_invocations(c, evs).owner == c.owner,
    decreases evs.len(),
{
    if evs.len() > 0 {
        lemma_run_never_decreases(spec_counter_after(evs[0].0, evs[0].1, c), evs.drop_first());
    }
}

/// A run of invocations that all find both accounts mid-transfer counts each
/// one exactly once.
pub proof fn lemma_successful_run_counts(c: Counter, evs: Seq<(Option<bool>, Option<bool>)>)
    requires
        forall|i: int|
            0 <= i < evs.len() ==> (#[trigger] evs[i]).0 == Some(true) && evs[i].1 == Some(true),
        c.count + evs.len() <= u64::MAX,
    ensures
        apply_invocations(c, evs).count == c.count + evs.len(),
        apply_invocations(c, evs).owner == c.owner,
    decreases evs.len(),
{
    if evs.len() > 0 {
        let c1 = spec_counter_after(evs[0].0, evs[0].1, c);
        assert(c1.count == c.count + 1);
        lemma_successful_run_counts(c1, evs.drop_first());
    }
}

/// Starting from a fresh counter, a run of successful invocations leaves the
/// count at exactly the run's length.
pub proof fn lemma_fresh_counter_counts(owner: Address, evs: Seq<(Option<bool>, Option<bool>)>)
    requires
        forall|i: int|
            0 <= i < evs.len() ==> (#[trigger] evs[i]).0 == Some(true) && evs[i].1 == Some(true),
        evs.len() <= u64::MAX,
    ensures
        apply_invocations(spec_initial_counter(owner), evs).count == evs.len(),
        apply_invocations(spec_initial_counter(owner), evs).owner == owner,
{
    lemma_successful_run_counts(spec_initial_counter(owner), evs);
}

/// A source account that is not mid-transfer is rejected as an out-of-band
/// call whatever the destination looks like, and the counter is untouched.
pub proof fn lemma_source_not_transferring_rejected(dst: Option<bool>, c: Counter)
    ensures
        spec_hook_error(Some(false), dst, c.count) == Some(
            HookError::ProgramCalledOutsideOfTransfer,
        ),
        spec_counter_after(Some(false), dst, c) == c,
{
}

/// A destination that is not mid-transfer behind a genuine source fails with
/// the very same error a failing source reports - the caller cannot tell the
/// two sites apart - and the counter is untouched.
pub proof fn lemma_destination_failure_indistinguishable(c: Counter)
    ensures
        spec_hook_error(Some(true), Some(false), c.count) == Some(
            HookError::ProgramCalledOutsideOfTransfer,
        ),
        spec_hook_error(Some(true), Some(false), c.count) == spec_hook_error(
            Some(false),
            Some(true),
            c.count,
        ),
        spec_counter_after(Some(true), Some(false), c) == c,
{
}

/// The published configuration survives the round trip: decoding what the
/// hook publishes for a counter address yields back the single entry with
/// discriminator 0, non-signer, writable, and that address.
pub proof fn lemma_config_round_trip(counter: Seq<u8>)
    requires
        counter.len() == 32,
    ensures
        spec_decode_meta_list(spec_config_data(counter)) == Some(seq![spec_counter_entry(counter)]),
        spec_counter_entry(counter).discriminator == 0,
        !spec_counter_entry(counter).is_signer,
        spec_counter_entry(counter).is_writable,
        spec_counter_entry(counter).address_config == counter,
{
    lemma_meta_list_round_trip(seq![spec_counter_entry(counter)]);
}

} // verus!
