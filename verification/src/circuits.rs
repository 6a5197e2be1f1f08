//! The three confidential circuits, as total functions on plaintext values.
//!
//! A compute cluster evaluates these on secret-shared data, so no step may
//! branch on an input: every function computes both outcomes of a decision
//! and picks one with [`oblivious_select`]. Subtraction wraps modulo 2^64;
//! that is part of each circuit's contract, not an error.

use vstd::prelude::*;

verus! {

/// Plaintext operands of a private transfer.
#[derive(Clone, Copy, Debug, PartialEq, Eq)]
pub struct PrivateTransferInput {
    /// Sender's current balance, in smallest units.
    pub sender_balance: u64,
    /// Amount to transfer.
    pub amount: u64,
    /// Balance the sender has to keep.
    pub min_balance: u64,
}

/// Result of a private transfer.
#[derive(Clone, Copy, Debug, PartialEq, Eq)]
pub struct PrivateTransferOutput {
    /// Whether the transfer is covered.
    pub is_valid: bool,
    /// Sender's balance after the transfer; the old balance if it is not valid.
    pub new_sender_balance: u64,
}

/// Plaintext operands of a balance check.
#[derive(Clone, Copy, Debug, PartialEq, Eq)]
pub struct BalanceCheckInput {
    /// Balance to check.
    pub balance: u64,
    /// Minimum required.
    pub minimum: u64,
}

/// Plaintext operands of a swap validation.
#[derive(Clone, Copy, Debug, PartialEq, Eq)]
pub struct ConfidentialSwapInput {
    /// Balance of the input token.
    pub input_balance: u64,
    /// Amount of the input token to swap.
    pub input_amount: u64,
    /// Least output the caller accepts.
    pub min_output: u64,
    /// Output the exchange quoted.
    pub actual_output: u64,
}

/// Result of a swap validation.
#[derive(Clone, Copy, Debug, PartialEq, Eq)]
pub struct ConfidentialSwapOutput {
    /// Whether the balance covers the swap and the slippage is acceptable.
    pub is_valid: bool,
    /// Input balance after the swap; debited whenever the balance covers it.
    pub new_input_balance: u64,
    /// Whether the quoted output reaches the accepted minimum.
    pub slippage_ok: bool,
}

/// `minuend - subtrahend` modulo 2^64.
pub open spec fn wrapping_difference(minuend: u64, subtrahend: u64) -> u64 {
    if minuend >= subtrahend {
        (minuend - subtrahend) as u64
    } else {
        (0x1_0000_0000_0000_0000 + minuend - subtrahend) as u64
    }
}

/// `when_true` if `condition` holds, `when_false` otherwise.
pub open spec fn select(condition: bool, when_true: u64, when_false: u64) -> u64 {
    if condition {
        when_true
    } else {
        when_false
    }
}

/// What a private transfer yields: the balance above the reserve, taken
/// modulo 2^64, has to cover the amount.
pub open spec fn transfer_outcome(input: PrivateTransferInput) -> PrivateTransferOutput {
    let available = wrapping_difference(input.sender_balance, input.min_balance);
    let is_valid = available >= input.amount;
    PrivateTransferOutput {
        is_valid,
        new_sender_balance: select(
            is_valid,
            wrapping_difference(input.sender_balance, input.amount),
            input.sender_balance,
        ),
    }
}

/// What a swap validation yields. The balance is debited on the balance
/// condition alone, whether or not the slippage check passes.
pub open spec fn swap_outcome(input: ConfidentialSwapInput) -> ConfidentialSwapOutput {
    let has_balance = input.input_balance >= input.input_amount;
    let slippage_ok = input.actual_output >= input.min_output;
    ConfidentialSwapOutput {
        is_valid: has_balance && slippage_ok,
        new_input_balance: if has_balance {
            (input.input_balance - input.input_amount) as u64
        } else {
            input.input_balance
        },
        slippage_ok,
    }
}

/// Chooses between two values without branching on `condition`: the
/// condition is stretched to an all-ones or all-zeros mask and both values
/// are blended through it.
pub fn oblivious_select(condition: bool, when_true: u64, when_false: u64) -> (chosen: u64)
    ensures
        chosen == select(condition, when_true, when_false),
{
    let bit: u64 = condition as u64;
    let mask: u64 = 0u64.wrapping_sub(bit);
    assert(bit == 1 ==> mask == 0xffff_ffff_ffff_ffffu64);
    assert(bit == 0 ==> mask == 0u64);
    assert(mask == 0xffff_ffff_ffff_ffffu64 ==> (when_true & mask) | (when_false & !mask)
        == when_true) by (bit_vector);
    assert(mask == 0u64 ==> (when_true & mask) | (when_false & !mask) == when_false)
        by (bit_vector);
    (when_true & mask) | (when_false & !mask)
}

/// Conjunction that evaluates both sides, so that neither is skipped on the
/// value of the other.
pub fn oblivious_and(left: bool, right: bool) -> (both: bool)
    ensures
        both == (left && right),
{
    let left_bit: u8 = left as u8;
    let right_bit: u8 = right as u8;
    assert(left_bit <= 1 && right_bit <= 1 ==> ((left_bit & right_bit) == 1 <==> (left_bit == 1
        && right_bit == 1))) by (bit_vector);
    (left_bit & right_bit) == 1
}

/// Validates a transfer and computes the sender's new balance.
pub fn private_transfer(input: PrivateTransferInput) -> (output: PrivateTransferOutput)
    ensures
        output == transfer_outcome(input),
{
    let available: u64 = input.sender_balance.wrapping_sub(input.min_balance);
    let is_valid = available >= input.amount;
    let debited: u64 = input.sender_balance.wrapping_sub(input.amount);
    let new_sender_balance = oblivious_select(is_valid, debited, input.sender_balance);
    PrivateTransferOutput { is_valid, new_sender_balance }
}

/// Tells whether a balance reaches a minimum.
pub fn check_balance(input: BalanceCheckInput) -> (meets_minimum: bool)
    ensures
        meets_minimum == (input.balance >= input.minimum),
{
    input.balance >= input.minimum
}

/// Validates a swap: the balance has to cover the input amount and the quoted
/// output has to reach the accepted minimum.
pub fn validate_swap(input: ConfidentialSwapInput) -> (output: ConfidentialSwapOutput)
    ensures
        output == swap_outcome(input),
{
    let has_balance = input.input_balance >= input.input_amount;
    let slippage_ok = input.actual_output >= input.min_output;
    let is_valid = oblivious_and(has_balance, slippage_ok);
    let debited: u64 = input.input_balance.wrapping_sub(input.input_amount);
    let new_input_balance = oblivious_select(has_balance, debited, input.input_balance);
    ConfidentialSwapOutput { is_valid, new_input_balance, slippage_ok }
}

/// While the reserve does not exceed the balance nothing wraps: a transfer is
/// valid exactly when the balance above the reserve covers the amount, a valid
/// transfer debits the amount and leaves at least the reserve, and an invalid
/// one leaves the balance as it was.
pub proof fn lemma_transfer_within_balance(input: PrivateTransferInput)
    requires
        input.min_balance <= input.sender_balance,
    ensures
        transfer_outcome(input).is_valid <==> input.sender_balance - input.min_balance
            >= input.amount,
        transfer_outcome(input).is_valid ==> transfer_outcome(input).new_sender_balance
            == input.sender_balance - input.amount,
        transfer_outcome(input).is_valid ==> transfer_outcome(input).new_sender_balance
            >= input.min_balance,
        !transfer_outcome(input).is_valid ==> transfer_outcome(input).new_sender_balance
            == input.sender_balance,
{
}

/// When the reserve exceeds the balance the available amount wraps to
/// `2^64 - (min_balance - sender_balance)`, and the transfer is valid exactly
/// when the amount does not exceed that wrapped value.
pub proof fn lemma_transfer_reserve_wraps(input: PrivateTransferInput)
    requires
        input.min_balance > input.sender_balance,
    ensures
        wrapping_difference(input.sender_balance, input.min_balance) == 0x1_0000_0000_0000_0000
            - (input.min_balance - input.sender_balance),
        transfer_outcome(input).is_valid <==> input.amount <= 0x1_0000_0000_0000_0000 - (
        input.min_balance - input.sender_balance),
{
}

/// A swap is valid exactly when both conditions hold, and the slippage check
/// has no part in the new balance: two inputs that differ only in the outputs
/// they quote and accept are debited alike.
pub proof fn lemma_swap_debit_ignores_slippage(
    input: ConfidentialSwapInput,
    min_output: u64,
    actual_output: u64,
)
    ensures
        swap_outcome(input).is_valid <==> (input.input_balance >= input.input_amount
            && input.actual_output >= input.min_output),
        swap_outcome(
            ConfidentialSwapInput { min_output, actual_output, ..input },
        ).new_input_balance == swap_outcome(input).new_input_balance,
        input.input_balance >= input.input_amount ==> swap_outcome(input).new_input_balance
            == input.input_balance - input.input_amount,
{
}

} // verus!
