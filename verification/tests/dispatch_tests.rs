use spl_token_2022::extension::transfer_hook::TransferHookAccount;
use spl_token_2022::extension::BaseStateWithExtensionsMut;
use spl_token_2022::extension::ExtensionType;
use spl_token_2022::extension::StateWithExtensionsMut;
use spl_token_2022::state::Account;
use spl_token_2022::state::AccountState;

use transferhook::addr::Address;
use transferhook::dispatch::fallback;
use transferhook::error::HookError;
use transferhook::hook::TransferHook;
use transferhook::state::Counter;
use transferhook::tlv::execute_ix_tag_le;

fn token_account_bytes(transferring: bool) -> Vec<u8> {
    let len = ExtensionType::try_calculate_account_len::<Account>(&[
        ExtensionType::TransferHookAccount,
    ])
    .unwrap();
    let mut buf = vec![0u8; len];
    let mut state = StateWithExtensionsMut::<Account>::unpack_uninitialized(&mut buf).unwrap();
    let ext = state.init_extension::<TransferHookAccount>(true).unwrap();
    ext.transferring = transferring.into();
    state.base = Account {
        state: AccountState::Initialized,
        ..Account::default()
    };
    state.pack_base();
    state.init_account_type().unwrap();
    buf
}

fn hook_ctx(count: u64) -> TransferHook {
    TransferHook {
        source: token_account_bytes(true),
        mint: Address { bytes: [2u8; 32] },
        destination: token_account_bytes(true),
        authority: Address { bytes: [3u8; 32] },
        extra_account: Address { bytes: [4u8; 32] },
        counter: Counter {
            owner: Address { bytes: [3u8; 32] },
            count,
        },
    }
}

fn program_id() -> Address {
    Address { bytes: [11u8; 32] }
}

#[test]
fn execute_tag_dispatches_with_the_exact_amount() {
    let mut ix: Vec<u8> = vec![105, 37, 101, 197, 75, 251, 102, 26];
    ix.extend_from_slice(&987_654_321u64.to_le_bytes());
    let mut ctx = hook_ctx(0);
    let receipt = fallback(&program_id(), &mut ctx, &ix).unwrap();
    assert_eq!(receipt.amount, 987_654_321);
    assert_eq!(receipt.count, 1);
    assert_eq!(ctx.counter.count, 1);
}

#[test]
fn the_recognized_tag_is_the_published_constant() {
    assert_eq!(execute_ix_tag_le(), [105, 37, 101, 197, 75, 251, 102, 26]);
}

#[test]
fn any_other_tag_is_rejected_with_no_side_effect() {
    let mut ix: Vec<u8> = vec![105, 37, 101, 197, 75, 251, 102, 27];
    ix.extend_from_slice(&5u64.to_le_bytes());
    let mut ctx = hook_ctx(9);
    let err = fallback(&program_id(), &mut ctx, &ix).unwrap_err();
    assert_eq!(err, HookError::InvalidInstructionData);
    assert_eq!(ctx.counter.count, 9);
}

#[test]
fn truncated_instructions_are_rejected() {
    let mut ctx = hook_ctx(9);
    let err = fallback(&program_id(), &mut ctx, &[105, 37, 101]).unwrap_err();
    assert_eq!(err, HookError::InvalidInstructionData);

    let short_payload: Vec<u8> = vec![105, 37, 101, 197, 75, 251, 102, 26, 1, 2, 3];
    let err = fallback(&program_id(), &mut ctx, &short_payload).unwrap_err();
    assert_eq!(err, HookError::InvalidInstructionData);
    assert_eq!(ctx.counter.count, 9);
}

#[test]
fn dispatched_failures_come_from_the_validator() {
    let mut ix: Vec<u8> = vec![105, 37, 101, 197, 75, 251, 102, 26];
    ix.extend_from_slice(&5u64.to_le_bytes());
    let mut ctx = hook_ctx(3);
    ctx.source = token_account_bytes(false);
    let err = fallback(&program_id(), &mut ctx, &ix).unwrap_err();
    assert_eq!(err, HookError::ProgramCalledOutsideOfTransfer);
    assert_eq!(ctx.counter.count, 3);
}
