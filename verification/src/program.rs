//! The operations of the three circuits: for each, the registration of its
//! definition, the submission of a request and the callback that delivers
//! the result.

use crate::arguments::{EncryptedOperand, EncryptionContext};
use crate::callbacks::{accepted, resolve, settled, Attestation, CallbackResult};
use crate::dispatcher::{submit, submitted, ComputationRequest};
use crate::encoding::nonce_to_le_bytes;
use crate::errors::ErrorCode;
use crate::ledger::Ledger;
use crate::registry::{circuit_handle, definition_offset, registration, DefinitionHandle};
use vstd::prelude::*;

verus! {

/// Name of the private transfer circuit.
pub const PRIVATE_TRANSFER: &'static str = "private_transfer";

/// Name of the balance check circuit.
pub const CHECK_BALANCE: &'static str = "check_balance";

/// Name of the swap validation circuit.
pub const VALIDATE_SWAP: &'static str = "validate_swap";

/// Encrypted operands of a private transfer: balance, amount, reserve.
pub const PRIVATE_TRANSFER_OPERANDS: usize = 3;

/// Encrypted operands of a balance check: balance, minimum.
pub const CHECK_BALANCE_OPERANDS: usize = 2;

/// Encrypted operands of a swap validation: balance, amount, accepted
/// minimum, quoted output.
pub const VALIDATE_SWAP_OPERANDS: usize = 4;

/// Output ciphertexts of a private transfer: validity, new balance.
pub const PRIVATE_TRANSFER_OUTPUTS: usize = 2;

/// Output ciphertexts of a balance check: whether the minimum is met.
pub const CHECK_BALANCE_OUTPUTS: usize = 1;

/// Output ciphertexts of a swap validation: validity, new balance, slippage.
pub const VALIDATE_SWAP_OUTPUTS: usize = 3;

/// Result of a private transfer, still encrypted.
#[derive(Clone, Copy, Debug, PartialEq, Eq)]
pub struct PrivateTransferEvent {
    /// Encrypted boolean: was the transfer valid?
    pub is_valid: [u8; 32],
    /// Encrypted integer: the sender's new balance.
    pub new_sender_balance: [u8; 32],
    /// Nonce for decryption, least significant byte first.
    pub nonce: [u8; 16],
}

/// Result of a balance check, still encrypted.
#[derive(Clone, Copy, Debug, PartialEq, Eq)]
pub struct BalanceCheckEvent {
    /// Encrypted boolean: does the balance meet the minimum?
    pub meets_minimum: [u8; 32],
    /// Nonce for decryption, least significant byte first.
    pub nonce: [u8; 16],
}

/// Result of a swap validation, still encrypted.
#[derive(Clone, Copy, Debug, PartialEq, Eq)]
pub struct SwapValidationEvent {
    /// Encrypted boolean: is the swap valid?
    pub is_valid: [u8; 32],
    /// Encrypted integer: the new input balance.
    pub new_input_balance: [u8; 32],
    /// Encrypted boolean: is the slippage acceptable?
    pub slippage_ok: [u8; 32],
    /// Nonce for decryption, least significant byte first.
    pub nonce: [u8; 16],
}

/// What registering the circuit `name` with `operands` operands does to the
/// ledger and returns: the registry changes as [`registration`] says, cluster
/// and requests stay as they are.
pub open spec fn registered(
    before: Ledger,
    after: Ledger,
    result: Result<DefinitionHandle, ErrorCode>,
    name: Seq<char>,
    operands: usize,
) -> bool {
    &&& after.cluster == before.cluster
    &&& after.requests@ == before.requests@
    &&& after.registry@ == registration(before.registry@, definition_offset(name), operands).0
    &&& result == registration(before.registry@, definition_offset(name), operands).1
}

/// Registers the definition of the private transfer circuit.
pub fn init_private_transfer_comp_def(ledger: &mut Ledger) -> (result: Result<
    DefinitionHandle,
    ErrorCode,
>)
    ensures
        registered(
            *old(ledger),
            *final(ledger),
            result,
            PRIVATE_TRANSFER@,
            PRIVATE_TRANSFER_OPERANDS,
        ),
{
    ledger.registry.register(PRIVATE_TRANSFER, PRIVATE_TRANSFER_OPERANDS)
}

/// Registers the definition of the balance check circuit.
pub fn init_check_balance_comp_def(ledger: &mut Ledger) -> (result: Result<
    DefinitionHandle,
    ErrorCode,
>)
    ensures
        registered(*old(ledger), *final(ledger), result, CHECK_BALANCE@, CHECK_BALANCE_OPERANDS),
{
    ledger.registry.register(CHECK_BALANCE, CHECK_BALANCE_OPERANDS)
}

/// Registers the definition of the swap validation circuit.
pub fn init_validate_swap_comp_def(ledger: &mut Ledger) -> (result: Result<
    DefinitionHandle,
    ErrorCode,
>)
    ensures
        registered(*old(ledger), *final(ledger), result, VALIDATE_SWAP@, VALIDATE_SWAP_OPERANDS),
{
    ledger.registry.register(VALIDATE_SWAP, VALIDATE_SWAP_OPERANDS)
}

/// Queues a private transfer. The arguments go to the cluster as public key,
/// nonce, sender balance, amount, minimum balance.
pub fn private_transfer(
    ledger: &mut Ledger,
    computation_offset: u64,
    encrypted_sender_balance: [u8; 32],
    encrypted_amount: [u8; 32],
    encrypted_min_balance: [u8; 32],
    pubkey: [u8; 32],
    nonce: u128,
) -> (result: Result<ComputationRequest, ErrorCode>)
    ensures
        submitted(
            *old(ledger),
            *final(ledger),
            result,
            computation_offset,
            circuit_handle(PRIVATE_TRANSFER@),
            (EncryptionContext { public_key: pubkey, nonce }),
            seq![encrypted_sender_balance, encrypted_amount, encrypted_min_balance],
        ),
{
    let definition = DefinitionHandle { offset: arcium_anchor::comp_def_offset(PRIVATE_TRANSFER) };
    let mut operands: Vec<EncryptedOperand> = Vec::new();
    operands.push(encrypted_sender_balance);
    operands.push(encrypted_amount);
    operands.push(encrypted_min_balance);
    assert(operands@ == seq![encrypted_sender_balance, encrypted_amount, encrypted_min_balance]);
    submit(
        ledger,
        computation_offset,
        definition,
        EncryptionContext { public_key: pubkey, nonce },
        operands,
    )
}

/// Queues a balance check. The arguments go to the cluster as public key,
/// nonce, balance, minimum.
pub fn check_balance(
    ledger: &mut Ledger,
    computation_offset: u64,
    encrypted_balance: [u8; 32],
    encrypted_minimum: [u8; 32],
    pubkey: [u8; 32],
    nonce: u128,
) -> (result: Result<ComputationRequest, ErrorCode>)
    ensures
        submitted(
            *old(ledger),
            *final(ledger),
            result,
            computation_offset,
            circuit_handle(CHECK_BALANCE@),
            (EncryptionContext { public_key: pubkey, nonce }),
            seq![encrypted_balance, encrypted_minimum],
        ),
{
    let definition = DefinitionHandle { offset: arcium_anchor::comp_def_offset(CHECK_BALANCE) };
    let mut operands: Vec<EncryptedOperand> = Vec::new();
    operands.push(encrypted_balance);
    operands.push(encrypted_minimum);
    assert(operands@ == seq![encrypted_balance, encrypted_minimum]);
    submit(
        ledger,
        computation_offset,
        definition,
        EncryptionContext { public_key: pubkey, nonce },
        operands,
    )
}

/// Queues a swap validation. The arguments go to the cluster as public key,
/// nonce, input balance, input amount, minimum output, actual output.
pub fn validate_swap(
    ledger: &mut Ledger,
    computation_offset: u64,
    encrypted_input_balance: [u8; 32],
    encrypted_input_amount: [u8; 32],
    encrypted_min_output: [u8; 32],
    encrypted_actual_output: [u8; 32],
    pubkey: [u8; 32],
    nonce: u128,
) -> (result: Result<ComputationRequest, ErrorCode>)
    ensures
        submitted(
            *old(ledger),
            *final(ledger),
            result,
            computation_offset,
            circuit_handle(VALIDATE_SWAP@),
            (EncryptionContext { public_key: pubkey, nonce }),
            seq![
                encrypted_input_balance,
                encrypted_input_amount,
                encrypted_min_output,
                encrypted_actual_output,
            ],
        ),
{
    let definition = DefinitionHandle { offset: arcium_anchor::comp_def_offset(VALIDATE_SWAP) };
    let mut operands: Vec<EncryptedOperand> = Vec::new();
    operands.push(encrypted_input_balance);
    operands.push(encrypted_input_amount);
    operands.push(encrypted_min_output);
    operands.push(encrypted_actual_output);
    assert(operands@ == seq![
        encrypted_input_balance,
        encrypted_input_amount,
        encrypted_min_output,
        encrypted_actual_output,
    ]);
    submit(
        ledger,
        computation_offset,
        definition,
        EncryptionContext { public_key: pubkey, nonce },
        operands,
    )
}

/// Whether `event` is what a verified private transfer payload holds:
/// validity in the first ciphertext, the new balance in the second, and the
/// payload's nonce bytes as they stand.
pub open spec fn transfer_event_of(payload: Seq<u8>, event: PrivateTransferEvent) -> bool {
    &&& event.is_valid@ == payload.subrange(48, 80)
    &&& event.new_sender_balance@ == payload.subrange(80, 112)
    &&& event.nonce@ == payload.subrange(32, 48)
}

/// Whether `event` is what a verified balance check payload holds.
pub open spec fn balance_event_of(payload: Seq<u8>, event: BalanceCheckEvent) -> bool {
    &&& event.meets_minimum@ == payload.subrange(48, 80)
    &&& event.nonce@ == payload.subrange(32, 48)
}

/// Whether `event` is what a verified swap validation payload holds:
/// validity, new balance and slippage in the three ciphertexts, in that order.
pub open spec fn swap_event_of(payload: Seq<u8>, event: SwapValidationEvent) -> bool {
    &&& event.is_valid@ == payload.subrange(48, 80)
    &&& event.new_input_balance@ == payload.subrange(80, 112)
    &&& event.slippage_ok@ == payload.subrange(112, 144)
    &&& event.nonce@ == payload.subrange(32, 48)
}

/// Receives the response to a private transfer. A response that a queued
/// private transfer awaits ends that request: with the event to publish if
/// it is verified and well-formed, with `AbortedComputation` if not. Any
/// other response is rejected with `AbortedComputation` and changes nothing.
pub fn private_transfer_callback(ledger: &mut Ledger, output: CallbackResult) -> (outcome: Result<
    PrivateTransferEvent,
    ErrorCode,
>)
    ensures
        settled(
            *old(ledger),
            *final(ledger),
            circuit_handle(PRIVATE_TRANSFER@),
            output,
            PRIVATE_TRANSFER_OUTPUTS as nat,
        ),
        outcome is Ok <==> accepted(
            *old(ledger),
            circuit_handle(PRIVATE_TRANSFER@),
            output,
            PRIVATE_TRANSFER_OUTPUTS as nat,
        ),
        outcome matches Ok(event) ==> (output.attestation matches Attestation::Verified(payload)
            && transfer_event_of(payload@, event)),
        outcome matches Err(error) ==> error == ErrorCode::AbortedComputation,
{
    let definition = DefinitionHandle { offset: arcium_anchor::comp_def_offset(PRIVATE_TRANSFER) };
    match resolve(ledger, definition, output, PRIVATE_TRANSFER_OUTPUTS) {
        Ok(decoded) => Ok(
            PrivateTransferEvent {
                is_valid: decoded.ciphertexts[0],
                new_sender_balance: decoded.ciphertexts[1],
                nonce: nonce_to_le_bytes(decoded.nonce),
            },
        ),
        Err(error) => Err(error),
    }
}

/// Receives the response to a balance check. A response that a queued
/// balance check awaits ends that request: with the event to publish if it
/// is verified and well-formed, with `AbortedComputation` if not. Any other
/// response is rejected with `AbortedComputation` and changes nothing.
pub fn check_balance_callback(ledger: &mut Ledger, output: CallbackResult) -> (outcome: Result<
    BalanceCheckEvent,
    ErrorCode,
>)
    ensures
        settled(
            *old(ledger),
            *final(ledger),
            circuit_handle(CHECK_BALANCE@),
            output,
            CHECK_BALANCE_OUTPUTS as nat,
        ),
        outcome is Ok <==> accepted(
            *old(ledger),
            circuit_handle(CHECK_BALANCE@),
            output,
            CHECK_BALANCE_OUTPUTS as nat,
        ),
        outcome matches Ok(event) ==> (output.attestation matches Attestation::Verified(payload)
            && balance_event_of(payload@, event)),
        outcome matches Err(error) ==> error == ErrorCode::AbortedComputation,
{
    let definition = DefinitionHandle { offset: arcium_anchor::comp_def_offset(CHECK_BALANCE) };
    match resolve(ledger, definition, output, CHECK_BALANCE_OUTPUTS) {
        Ok(decoded) => Ok(
            BalanceCheckEvent {
                meets_minimum: decoded.ciphertexts[0],
                nonce: nonce_to_le_bytes(decoded.nonce),
            },
        ),
        Err(error) => Err(error),
    }
}

/// Receives the response to a swap validation. A response that a queued
/// swap validation awaits ends that request: with the event to publish if it
/// is verified and well-formed, with `AbortedComputation` if not. Any other
/// response is rejected with `AbortedComputation` and changes nothing.
pub fn validate_swap_callback(ledger: &mut Ledger, output: CallbackResult) -> (outcome: Result<
    SwapValidationEvent,
    ErrorCode,
>)
    ensures
        settled(
            *old(ledger),
            *final(ledger),
            circuit_handle(VALIDATE_SWAP@),
            output,
            VALIDATE_SWAP_OUTPUTS as nat,
        ),
        outcome is Ok <==> accepted(
            *old(ledger),
            circuit_handle(VALIDATE_SWAP@),
            output,
            VALIDATE_SWAP_OUTPUTS as nat,
        ),
        outcome matches Ok(event) ==> (output.attestation matches Attestation::Verified(payload)
            && swap_event_of(payload@, event)),
        outcome matches Err(error) ==> error == ErrorCode::AbortedComputation,
{
    let definition = DefinitionHandle { offset: arcium_anchor::comp_def_offset(VALIDATE_SWAP) };
    match resolve(ledger, definition, output, VALIDATE_SWAP_OUTPUTS) {
        Ok(decoded) => Ok(
            SwapValidationEvent {
                is_valid: decoded.ciphertexts[0],
                new_input_balance: decoded.ciphertexts[1],
                slippage_ok: decoded.ciphertexts[2],
                nonce: nonce_to_le_bytes(decoded.nonce),
            },
        ),
        Err(error) => Err(error),
    }
}

} // verus!
