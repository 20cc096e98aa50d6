use spl_token_2022::extension::transfer_hook::TransferHookAccount;
use spl_token_2022::extension::BaseStateWithExtensionsMut;
use spl_token_2022::extension::ExtensionType;
use spl_token_2022::extension::StateWithExtensionsMut;
use spl_token_2022::state::Account;
use spl_token_2022::state::AccountState;

use transferhook::addr::Address;
use transferhook::error::HookError;
use transferhook::hook::check_token_account_is_transferring;
use transferhook::hook::initialize;
use transferhook::hook::transfer_hook;
use transferhook::hook::Initialize;
use transferhook::hook::TransferHook;
use transferhook::state::Counter;

/// A token-2022 account buffer carrying the transfer-hook account extension
/// with the given transferring flag.
fn token_account_bytes(transferring: bool) -> Vec<u8> {
    let len = ExtensionType::try_calculate_account_len::<Account>(&[
        ExtensionType::TransferHookAccount,
    ])
    .unwrap();
    let mut buf = vec![0u8; len];
    let mut state = StateWithExtensionsMut::<Account>::unpack_uninitialized(&mut buf).unwrap();
    let ext = state.init_extension::<TransferHookAccount>(true).unwrap();
    ext.transferring = transferring.into();
    state.base = Account {
        state: AccountState::Initialized,
        ..Account::default()
    };
    state.pack_base();
    state.init_account_type().unwrap();
    buf
}

/// A token-2022 account buffer without the transfer-hook extension.
fn plain_account_bytes() -> Vec<u8> {
    let len = ExtensionType::try_calculate_account_len::<Account>(&[]).unwrap();
    let mut buf = vec![0u8; len];
    let mut state = StateWithExtensionsMut::<Account>::unpack_uninitialized(&mut buf).unwrap();
    state.base = Account {
        state: AccountState::Initialized,
        ..Account::default()
    };
    state.pack_base();
    state.init_account_type().unwrap();
    buf
}

fn hook_ctx(source: Vec<u8>, destination: Vec<u8>, count: u64) -> TransferHook {
    TransferHook {
        source,
        mint: Address { bytes: [2u8; 32] },
        destination,
        authority: Address { bytes: [3u8; 32] },
        extra_account: Address { bytes: [4u8; 32] },
        counter: Counter {
            owner: Address { bytes: [3u8; 32] },
            count,
        },
    }
}

#[test]
fn fresh_initialize_starts_at_zero() {
    let authority = Address { bytes: [9u8; 32] };
    let ctx = Initialize {
        authority,
        counter_in_use: false,
    };
    let counter = initialize(&ctx).unwrap();
    assert_eq!(counter.count, 0);
    assert_eq!(counter.owner.bytes, [9u8; 32]);
}

#[test]
fn second_initialize_fails_already_initialized() {
    let authority = Address { bytes: [9u8; 32] };
    let ctx = Initialize {
        authority,
        counter_in_use: true,
    };
    let err = initialize(&ctx).unwrap_err();
    assert_eq!(err, HookError::AlreadyInitialized);
}

#[test]
fn successful_invocations_count_one_each() {
    let mut ctx = hook_ctx(token_account_bytes(true), token_account_bytes(true), 0);
    for n in 1..=5u64 {
        let receipt = transfer_hook(&mut ctx, 1000).unwrap();
        assert_eq!(receipt.count, n);
        assert_eq!(ctx.counter.count, n);
    }
    assert_eq!(ctx.counter.count, 5);
}

#[test]
fn receipt_reports_amount_and_config_address() {
    let mut ctx = hook_ctx(token_account_bytes(true), token_account_bytes(true), 7);
    let receipt = transfer_hook(&mut ctx, 123_456).unwrap();
    assert_eq!(receipt.amount, 123_456);
    assert_eq!(receipt.extra_account.bytes, [4u8; 32]);
    assert_eq!(receipt.count, 8);
}

#[test]
fn source_not_transferring_is_rejected_and_counter_unchanged() {
    let mut ctx = hook_ctx(token_account_bytes(false), token_account_bytes(true), 3);
    let err = transfer_hook(&mut ctx, 10).unwrap_err();
    assert_eq!(err, HookError::ProgramCalledOutsideOfTransfer);
    assert_eq!(ctx.counter.count, 3);

    let mut ctx = hook_ctx(token_account_bytes(false), token_account_bytes(false), 3);
    let err = transfer_hook(&mut ctx, 10).unwrap_err();
    assert_eq!(err, HookError::ProgramCalledOutsideOfTransfer);
    assert_eq!(ctx.counter.count, 3);
}

#[test]
fn destination_failure_reports_the_same_error() {
    let mut src_fails = hook_ctx(token_account_bytes(false), token_account_bytes(true), 3);
    let src_err = transfer_hook(&mut src_fails, 10).unwrap_err();

    let mut dst_fails = hook_ctx(token_account_bytes(true), token_account_bytes(false), 3);
    let dst_err = transfer_hook(&mut dst_fails, 10).unwrap_err();

    assert_eq!(src_err, dst_err);
    assert_eq!(dst_err, HookError::ProgramCalledOutsideOfTransfer);
    assert_eq!(dst_fails.counter.count, 3);
}

#[test]
fn account_without_extension_is_rejected() {
    let mut ctx = hook_ctx(plain_account_bytes(), token_account_bytes(true), 0);
    let err = transfer_hook(&mut ctx, 10).unwrap_err();
    assert_eq!(err, HookError::MissingTransferHookExtension);
    assert_eq!(ctx.counter.count, 0);
}

#[test]
fn malformed_account_bytes_are_rejected() {
    let mut ctx = hook_ctx(vec![1, 2, 3], token_account_bytes(true), 0);
    let err = transfer_hook(&mut ctx, 10).unwrap_err();
    assert_eq!(err, HookError::MissingTransferHookExtension);
    assert_eq!(ctx.counter.count, 0);
}

#[test]
fn transferring_check_reads_the_real_flag() {
    assert!(check_token_account_is_transferring(&token_account_bytes(true)).is_ok());
    assert_eq!(
        check_token_account_is_transferring(&token_account_bytes(false)),
        Err(HookError::ProgramCalledOutsideOfTransfer)
    );
    assert_eq!(
        check_token_account_is_transferring(&plain_account_bytes()),
        Err(HookError::MissingTransferHookExtension)
    );
}

#[test]
fn counter_saturation_surfaces_overflow() {
    let mut ctx = hook_ctx(token_account_bytes(true), token_account_bytes(true), u64::MAX);
    let err = transfer_hook(&mut ctx, 10).unwrap_err();
    assert_eq!(err, HookError::CounterOverflow);
    assert_eq!(ctx.counter.count, u64::MAX);
}
