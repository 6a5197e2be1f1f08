use sip_arcium_transfer::circuits::{
    check_balance, oblivious_and, oblivious_select, private_transfer, validate_swap,
    BalanceCheckInput, ConfidentialSwapInput, ConfidentialSwapOutput, PrivateTransferInput,
    PrivateTransferOutput,
};

fn transfer(sender_balance: u64, amount: u64, min_balance: u64) -> PrivateTransferOutput {
    private_transfer(PrivateTransferInput { sender_balance, amount, min_balance })
}

fn swap(
    input_balance: u64,
    input_amount: u64,
    min_output: u64,
    actual_output: u64,
) -> ConfidentialSwapOutput {
    validate_swap(ConfidentialSwapInput { input_balance, input_amount, min_output, actual_output })
}

#[test]
fn select_picks_by_condition() {
    assert_eq!(oblivious_select(true, 7, 9), 7);
    assert_eq!(oblivious_select(false, 7, 9), 9);
    assert_eq!(oblivious_select(true, u64::MAX, 0), u64::MAX);
    assert_eq!(oblivious_select(false, u64::MAX, 0), 0);
    assert_eq!(oblivious_select(true, 0, u64::MAX), 0);
    assert_eq!(oblivious_select(false, 0, u64::MAX), u64::MAX);
}

#[test]
fn and_holds_only_of_two_true_sides() {
    assert!(oblivious_and(true, true));
    assert!(!oblivious_and(true, false));
    assert!(!oblivious_and(false, true));
    assert!(!oblivious_and(false, false));
}

#[test]
fn transfer_within_available_balance_is_valid() {
    let output = transfer(1000, 600, 100);
    assert_eq!(output, PrivateTransferOutput { is_valid: true, new_sender_balance: 400 });
}

#[test]
fn transfer_beyond_available_balance_is_invalid() {
    let output = transfer(1000, 950, 100);
    assert_eq!(output, PrivateTransferOutput { is_valid: false, new_sender_balance: 1000 });
}

#[test]
fn transfer_of_exactly_the_available_balance_is_valid() {
    assert_eq!(
        transfer(1000, 900, 100),
        PrivateTransferOutput { is_valid: true, new_sender_balance: 100 }
    );
    assert_eq!(
        transfer(1000, 901, 100),
        PrivateTransferOutput { is_valid: false, new_sender_balance: 1000 }
    );
}

#[test]
fn transfer_of_nothing_is_valid() {
    assert_eq!(transfer(0, 0, 0), PrivateTransferOutput { is_valid: true, new_sender_balance: 0 });
    assert_eq!(
        transfer(u64::MAX, 0, u64::MAX),
        PrivateTransferOutput { is_valid: true, new_sender_balance: u64::MAX }
    );
}

#[test]
fn transfer_of_whole_balance_without_reserve() {
    assert_eq!(
        transfer(u64::MAX, u64::MAX, 0),
        PrivateTransferOutput { is_valid: true, new_sender_balance: 0 }
    );
}

#[test]
fn reserve_above_balance_wraps_the_available_amount() {
    // 5 - 10 wraps to 2^64 - 5, which covers 3.
    assert_eq!(transfer(5, 3, 10), PrivateTransferOutput { is_valid: true, new_sender_balance: 2 });
    // It also covers 7, and 5 - 7 wraps in turn.
    assert_eq!(
        transfer(5, 7, 10),
        PrivateTransferOutput { is_valid: true, new_sender_balance: u64::MAX - 1 }
    );
    // 0 - 10 wraps to 2^64 - 10, which does not cover 2^64 - 1.
    assert_eq!(
        transfer(0, u64::MAX, 10),
        PrivateTransferOutput { is_valid: false, new_sender_balance: 0 }
    );
    // The wrapped amount itself is the last one covered.
    assert_eq!(
        transfer(0, u64::MAX - 9, 10),
        PrivateTransferOutput { is_valid: true, new_sender_balance: 10 }
    );
    assert_eq!(
        transfer(0, u64::MAX - 8, 10),
        PrivateTransferOutput { is_valid: false, new_sender_balance: 0 }
    );
}

#[test]
fn transfer_agrees_with_wrapping_arithmetic() {
    let samples = [0u64, 1, 2, 99, 100, 101, 1000, u64::MAX / 2, u64::MAX - 1, u64::MAX];
    for sender_balance in samples {
        for amount in samples {
            for min_balance in samples {
                let output = transfer(sender_balance, amount, min_balance);
                let is_valid = sender_balance.wrapping_sub(min_balance) >= amount;
                assert_eq!(output.is_valid, is_valid);
                if is_valid {
                    assert_eq!(output.new_sender_balance, sender_balance.wrapping_sub(amount));
                } else {
                    assert_eq!(output.new_sender_balance, sender_balance);
                }
            }
        }
    }
}

#[test]
fn balance_check_is_a_plain_comparison() {
    assert!(check_balance(BalanceCheckInput { balance: 100, minimum: 100 }));
    assert!(check_balance(BalanceCheckInput { balance: 101, minimum: 100 }));
    assert!(!check_balance(BalanceCheckInput { balance: 99, minimum: 100 }));
    assert!(check_balance(BalanceCheckInput { balance: 0, minimum: 0 }));
    assert!(!check_balance(BalanceCheckInput { balance: 0, minimum: 1 }));
    assert!(check_balance(BalanceCheckInput { balance: u64::MAX, minimum: u64::MAX }));
    assert!(!check_balance(BalanceCheckInput { balance: u64::MAX - 1, minimum: u64::MAX }));
    assert!(check_balance(BalanceCheckInput { balance: u64::MAX, minimum: 0 }));
    assert!(!check_balance(BalanceCheckInput { balance: 0, minimum: u64::MAX }));
}

#[test]
fn balance_check_agrees_with_comparison() {
    let samples = [0u64, 1, 2, 1000, u64::MAX / 2, u64::MAX - 1, u64::MAX];
    for balance in samples {
        for minimum in samples {
            assert_eq!(check_balance(BalanceCheckInput { balance, minimum }), balance >= minimum);
        }
    }
}

#[test]
fn swap_with_failed_slippage_is_still_debited() {
    let output = swap(500, 500, 100, 90);
    assert_eq!(
        output,
        ConfidentialSwapOutput { is_valid: false, new_input_balance: 0, slippage_ok: false }
    );
}

#[test]
fn swap_that_meets_both_conditions_is_valid() {
    assert_eq!(
        swap(500, 200, 100, 100),
        ConfidentialSwapOutput { is_valid: true, new_input_balance: 300, slippage_ok: true }
    );
    assert_eq!(
        swap(500, 200, 100, 250),
        ConfidentialSwapOutput { is_valid: true, new_input_balance: 300, slippage_ok: true }
    );
}

#[test]
fn swap_without_balance_is_not_debited() {
    assert_eq!(
        swap(100, 101, 50, 60),
        ConfidentialSwapOutput { is_valid: false, new_input_balance: 100, slippage_ok: true }
    );
    assert_eq!(
        swap(100, 101, 50, 40),
        ConfidentialSwapOutput { is_valid: false, new_input_balance: 100, slippage_ok: false }
    );
    assert_eq!(
        swap(0, u64::MAX, 0, 0),
        ConfidentialSwapOutput { is_valid: false, new_input_balance: 0, slippage_ok: true }
    );
}

#[test]
fn swap_debit_does_not_depend_on_slippage() {
    let samples = [0u64, 1, 90, 100, 500, u64::MAX - 1, u64::MAX];
    for input_balance in samples {
        for input_amount in samples {
            let passing = swap(input_balance, input_amount, 0, u64::MAX);
            let failing = swap(input_balance, input_amount, u64::MAX, 0);
            assert!(passing.slippage_ok);
            assert!(!failing.slippage_ok);
            assert!(!failing.is_valid);
            assert_eq!(passing.is_valid, input_balance >= input_amount);
            assert_eq!(passing.new_input_balance, failing.new_input_balance);
            if input_balance >= input_amount {
                assert_eq!(passing.new_input_balance, input_balance - input_amount);
            } else {
                assert_eq!(passing.new_input_balance, input_balance);
            }
        }
    }
}
