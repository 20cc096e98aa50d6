use vstd::prelude::*;

use crate::addr::address_eq;
use crate::addr::address_to_vec;
use crate::addr::config_seeds;
use crate::addr::expected_config_address;
use crate::addr::program_derived_address;
use crate::addr::Address;
use crate::error::HookError;
use crate::state::read_transferring_flag;
use crate::state::spec_initial_counter;
use crate::state::transferring_extension;
use crate::state::Counter;
use crate::tlv::encode_meta_list;
use crate::tlv::meta_list_size;
use crate::tlv::meta_wf;
use crate::tlv::spec_encode_meta_list;
use crate::tlv::spec_meta_list_size;
use crate::tlv::ExtraAccountMeta;
use crate::tlv::MetaView;

verus! {

/// The accounts an `initialize` call operates on.
pub struct Initialize {
    /// The authority creating its invocation counter.
    pub authority: Address,
    /// Whether the counter's derived storage address is already occupied.
    pub counter_in_use: bool,
}

/// The accounts a `transfer_hook` call operates on, in the fixed order the
/// external runtime supplies them: source, mint, destination, authority,
/// resolver-configuration account, counter.
pub struct TransferHook {
    /// The source token account's raw bytes.
    pub source: Vec<u8>,
    /// The token's mint address.
    pub mint: Address,
    /// The destination token account's raw bytes.
    pub destination: Vec<u8>,
    /// The transfer's authority.
    pub authority: Address,
    /// The resolver configuration's derived address.
    pub extra_account: Address,
    /// The invocation counter record.
    pub counter: Counter,
}

/// The accounts an `initialize_extra_account_meta_list` call operates on.
pub struct InitializeExtraAccountMetaList {
    /// The account the configuration is to be stored in.
    pub extra_account: Address,
    /// Whether that account already holds data.
    pub extra_account_in_use: bool,
    /// The invocation counter's address, published as the one extra account.
    pub counter: Address,
    /// The token's mint address.
    pub mint: Address,
    /// The caller funding the allocation.
    pub authority: Address,
}

/// The diagnostic record a successful hook invocation emits: the invocation's
/// untouched amount, the resolver configuration's address, and the counter
/// value after the increment.
#[derive(Debug)]
pub struct HookReceipt {
    pub amount: u64,
    pub extra_account: Address,
    pub count: u64,
}

/// What the transferring check says of one account's flag: absent means a
/// malformed or wrong account, present-but-false means an out-of-band call.
pub open spec fn spec_transfer_check(flag: Option<bool>) -> Result<(), HookError> {
    match flag {
        Option::None => Result::Err(HookError::MissingTransferHookExtension),
        Option::Some(false) => Result::Err(HookError::ProgramCalledOutsideOfTransfer),
        Option::Some(true) => Result::Ok(()),
    }
}

/// The hook's outcome: the source account's check, then the destination's,
/// then the counter increment, in that fixed order.
pub open spec fn spec_hook_error(src: Option<bool>, dst: Option<bool>, count: u64) -> Option<
    HookError,
> {
    if spec_transfer_check(src) is Err {
        Option::Some(spec_transfer_check(src)->Err_0)
    } else if spec_transfer_check(dst) is Err {
        Option::Some(spec_transfer_check(dst)->Err_0)
    } else if count == u64::MAX {
        Option::Some(HookError::CounterOverflow)
    } else {
        Option::None
    }
}

/// The counter after one invocation: one more on success, unchanged on any
/// failure.
pub open spec fn spec_counter_after(src: Option<bool>, dst: Option<bool>, c: Counter) -> Counter {
    if spec_hook_error(src, dst, c.count) is None {
        Counter { owner: c.owner, count: (c.count + 1) as u64 }
    } else {
        c
    }
}

/// Judge one account's transferring flag, as the decoder reported it.
pub fn check_transferring_state(flag: Option<bool>) -> (r: Result<(), HookError>)
    ensures
        r == spec_transfer_check(flag),
{
    match flag {
        Option::None => Result::Err(HookError::MissingTransferHookExtension),
        Option::Some(false) => Result::Err(HookError::ProgramCalledOutsideOfTransfer),
        Option::Some(true) => Result::Ok(()),
    }
}

/// Decode a token account's bytes and demand that it is mid-transfer.
pub fn check_token_account_is_transferring(account_data: &[u8]) -> (r: Result<(), HookError>)
    ensures
        r == spec_transfer_check(transferring_extension(account_data@)),
{
    let flag = read_transferring_flag(account_data);
    check_transferring_state(flag)
}

/// Create the authority's invocation counter: fresh storage starts at zero,
/// occupied storage is refused.
pub fn initialize(ctx: &Initialize) -> (r: Result<Counter, HookError>)
    ensures
        ctx.counter_in_use ==> r == Result::<Counter, HookError>::Err(
            HookError::AlreadyInitialized,
        ),
        !ctx.counter_in_use ==> r == Result::<Counter, HookError>::Ok(
            spec_initial_counter(ctx.authority),
        ),
{
    if ctx.counter_in_use {
        Result::Err(HookError::AlreadyInitialized)
    } else {
        Result::Ok(Counter { owner: ctx.authority, count: 0 })
    }
}

/// The hook's core: check both flags in source-then-destination order, and
/// only when both pass count the invocation.
pub fn validate_transfer(src: Option<bool>, dst: Option<bool>, counter: &mut Counter) -> (r: Result<
    (),
    HookError,
>)
    ensures
        *final(counter) == spec_counter_after(src, dst, *old(counter)),
        (r matches Err(e) ==> spec_hook_error(src, dst, old(counter).count) == Some(e)),
        r is Ok <==> spec_hook_error(src, dst, old(counter).count) is None,
        r is Err ==> *final(counter) == *old(counter),
        r is Ok ==> final(counter).count == old(counter).count + 1,
        final(counter).owner == old(counter).owner,
{
    check_transferring_state(src)?;
    check_transferring_state(dst)?;
    if counter.count == u64::MAX {
        return Result::Err(HookError::CounterOverflow);
    }
    counter.count = counter.count + 1;
    Result::Ok(())
}

/// Validate a transfer against the source and destination account bytes,
/// count it, and emit the diagnostic record.
pub fn transfer_hook(ctx: &mut TransferHook, amount: u64) -> (r: Result<HookReceipt, HookError>)
    ensures
        final(ctx).counter == spec_counter_after(
            transferring_extension(old(ctx).source@),
            transferring_extension(old(ctx).destination@),
            old(ctx).counter,
        ),
        (r matches Err(e) ==> spec_hook_error(
            transferring_extension(old(ctx).source@),
            transferring_extension(old(ctx).destination@),
            old(ctx).counter.count,
        ) == Some(e)),
        r is Ok <==> spec_hook_error(
            transferring_extension(old(ctx).source@),
            transferring_extension(old(ctx).destination@),
            old(ctx).counter.count,
        ) is None,
        (r matches Ok(receipt) ==> receipt.amount == amount && receipt.extra_account@ == old(
            ctx,
        ).extra_account@ && receipt.count == old(ctx).counter.count + 1),
        r is Err ==> final(ctx).counter == old(ctx).counter,
        final(ctx).source == old(ctx).source,
        final(ctx).mint == old(ctx).mint,
        final(ctx).destination == old(ctx).destination,
        final(ctx).authority == old(ctx).authority,
        final(ctx).extra_account == old(ctx).extra_account,
{
    let src = read_transferring_flag(ctx.source.as_slice());
    let dst = read_transferring_flag(ctx.destination.as_slice());
    validate_transfer(src, dst, &mut ctx.counter)?;
    Result::Ok(
        HookReceipt {
            amount,
            extra_account: Address { bytes: ctx.extra_account.bytes },
            count: ctx.counter.count,
        },
    )
}

/// The validated plan for publishing the resolver configuration: where the
/// storage goes, how large it must be, the seeds that authorize the
/// allocation, and the bytes to write into it.
#[derive(Debug)]
pub struct ConfigPlan {
    /// The derived address the configuration is stored at.
    pub config_address: Address,
    /// The exact byte size of the storage to allocate.
    pub size: u64,
    /// The signer seeds authorizing the allocation: the fixed label, the
    /// mint's bytes, and the bump byte.
    pub seeds: Vec<Vec<u8>>,
    /// The serialized entry list.
    pub data: Vec<u8>,
}

/// The single entry the configuration publishes: the counter account,
/// non-signer, writable.
pub open spec fn spec_counter_entry(counter: Seq<u8>) -> MetaView {
    MetaView { discriminator: 0u8, address_config: counter, is_signer: false, is_writable: true }
}

/// The configuration bytes published for a given counter address.
pub open spec fn spec_config_data(counter: Seq<u8>) -> Seq<u8> {
    spec_encode_meta_list(seq![spec_counter_entry(counter)])
}

/// Build and validate the resolver configuration: exactly one entry naming
/// the counter account, stored at the address the label, mint and bump seed
/// derive. Fails with `InvalidSeeds`, before any allocation plan is produced,
/// when the bump does not reproduce the supplied account's address, and with
/// `AlreadyInitialized` when that account already holds data.
pub fn initialize_extra_account_meta_list(
    ctx: &InitializeExtraAccountMetaList,
    program_id: &Address,
    bump_seed: u8,
) -> (r: Result<ConfigPlan, HookError>)
    ensures
        (r matches Ok(plan) ==> {
            &&& program_derived_address(config_seeds(ctx.mint@, bump_seed), program_id@) == Some(
                ctx.extra_account@,
            )
            &&& !ctx.extra_account_in_use
            &&& plan.config_address@ == ctx.extra_account@
            &&& plan.data@ == spec_config_data(ctx.counter@)
            &&& plan.size == spec_meta_list_size(1)
            &&& plan.size == plan.data@.len()
            &&& plan.seeds.deep_view() == config_seeds(ctx.mint@, bump_seed)
        }),
        (r matches Err(e) ==> {
            &&& (e == HookError::InvalidSeeds <==> program_derived_address(
                config_seeds(ctx.mint@, bump_seed),
                program_id@,
            ) != Some(ctx.extra_account@))
            &&& (e == HookError::AlreadyInitialized <==> program_derived_address(
                config_seeds(ctx.mint@, bump_seed),
                program_id@,
            ) == Some(ctx.extra_account@) && ctx.extra_account_in_use)
        }),
        r is Ok <==> program_derived_address(config_seeds(ctx.mint@, bump_seed), program_id@)
            == Some(ctx.extra_account@) && !ctx.extra_account_in_use,
{
    let derived = expected_config_address(&ctx.mint, bump_seed, program_id);
    match derived {
        Option::None => {
            return Result::Err(HookError::InvalidSeeds);
        },
        Option::Some(a) => {
            if !address_eq(&a, &ctx.extra_account) {
                return Result::Err(HookError::InvalidSeeds);
            }
        },
    }
    if ctx.extra_account_in_use {
        return Result::Err(HookError::AlreadyInitialized);
    }
    let entry = ExtraAccountMeta {
        discriminator: 0,
        address_config: address_to_vec(&ctx.counter),
        is_signer: false,
        is_writable: true,
    };
    let mut metas: Vec<ExtraAccountMeta> = Vec::new();
    metas.push(entry);
    proof {
        assert(meta_wf(metas.deep_view()[0]));
        assert(metas.deep_view() =~= seq![spec_counter_entry(ctx.counter@)]);
    }
    let size = meta_list_size(metas.len());
    let data = encode_meta_list(&metas);
    let mut seeds: Vec<Vec<u8>> = Vec::new();
    seeds.push(crate::addr::label_bytes());
    seeds.push(address_to_vec(&ctx.mint));
    let mut bump: Vec<u8> = Vec::new();
    bump.push(bump_seed);
    seeds.push(bump);
    proof {
        assert(seeds@[0].deep_view() =~= crate::addr::extra_account_metas_label());
        assert(seeds@[1].deep_view() =~= ctx.mint@);
        assert(seeds@[2].deep_view() =~= seq![bump_seed]);
        assert(seeds.deep_view() =~= config_seeds(ctx.mint@, bump_seed));
    }
    Result::Ok(
        ConfigPlan {
            config_address: Address { bytes: ctx.extra_account.bytes },
            size,
            seeds,
            data,
        },
    )
}

/// Carry the runtime's answer to the allocate-and-assign step: acceptance
/// hands back the bytes to write, rejection surfaces `AllocationFailed`.
pub fn complete_initialization(plan: ConfigPlan, allocation_accepted: bool) -> (r: Result<
    Vec<u8>,
    HookError,
>)
    ensures
        allocation_accepted ==> (r matches Ok(d) && d == plan.data),
        !allocation_accepted ==> r == Result::<Vec<u8>, HookError>::Err(
            HookError::AllocationFailed,
        ),
{
    if allocation_accepted {
        Result::Ok(plan.data)
    } else {
        Result::Err(HookError::AllocationFailed)
    }
}

} // verus!
