//! Entry of the transfer-hook callback: decodes the callback payload and
//! hands a transfer-execution request to the rule engine.
use vstd::prelude::*;

use spl_transfer_hook_interface::instruction::TransferHookInstruction;
use spl_transfer_hook_interface::solana_program::program_error::ProgramError;

use crate::error::TransferHookErr;
use crate::instruction::{has_tag, starts_with, u64_at, Instruction};
use crate::policy::Policy;
use crate::rules::{transfer_hook, verdict};

verus! {

#[verifier::external_type_specification]
#[verifier::external_body]
pub struct ExProgramError(ProgramError);

/// Discriminator of the transfer-hook interface's execute request: the first
/// eight bytes of the SHA-256 digest of "spl-transfer-hook-interface:execute".
pub const EXECUTE_DISCRIMINATOR: [u8; 8] = [105, 37, 101, 197, 75, 251, 102, 26];

/// The kinds of callback the transfer-hook interface defines.
#[derive(Clone, Copy, Debug, PartialEq, Eq, Structural)]
pub enum HookCall {
    /// A transfer of `amount` is being executed.
    Execute { amount: u64 },
    InitializeExtraAccountMetaList,
    UpdateExtraAccountMetaList,
}

/// The amount of a well-formed execute request: the discriminator followed
/// by a little-endian `u64`; `None` for any other payload.
pub open spec fn execute_amount(data: Seq<u8>) -> Option<nat> {
    if starts_with(data, EXECUTE_DISCRIMINATOR@) {
        u64_at(data, 8)
    } else {
        None
    }
}

/// Relies on `TransferHookInstruction::unpack`: on a payload that starts
/// with the execute discriminator it returns `Execute` exactly when eight
/// more bytes follow, read as a little-endian amount, and an error otherwise.
/// Only such payloads are handed to it: on the other two requests it slices
/// by a count the payload gives and can panic.
#[verifier::external_body]
fn unpack_hook_call(data: &[u8]) -> (r: Result<HookCall, ProgramError>)
    requires
        starts_with(data@, EXECUTE_DISCRIMINATOR@),
    ensures
        r matches Ok(HookCall::Execute { amount }) ==> execute_amount(data@) == Some(
            amount as nat,
        ),
        !(r matches Ok(HookCall::Execute { .. })) ==> execute_amount(data@) is None,
{
    match TransferHookInstruction::unpack(data) {
        Ok(TransferHookInstruction::Execute { amount }) => Ok(HookCall::Execute { amount }),
        Ok(TransferHookInstruction::InitializeExtraAccountMetaList { .. }) => Ok(
            HookCall::InitializeExtraAccountMetaList,
        ),
        Ok(TransferHookInstruction::UpdateExtraAccountMetaList { .. }) => Ok(
            HookCall::UpdateExtraAccountMetaList,
        ),
        Err(e) => Err(e),
    }
}

/// The transfer amount of an execute request, or `None` for any other
/// callback payload.
pub fn execute_request(data: &[u8]) -> (r: Option<u64>)
    ensures
        r matches Some(a) ==> execute_amount(data@) == Some(a as nat),
        r is None ==> execute_amount(data@) is None,
{
    if !has_tag(data, &EXECUTE_DISCRIMINATOR) {
        return None;
    }
    match unpack_hook_call(data) {
        Ok(HookCall::Execute { amount }) => Some(amount),
        Ok(_) => None,
        Err(_) => None,
    }
}

/// The outcome of a callback with payload `data` for the transfer at
/// position `p` of `tx`.
pub open spec fn callback_outcome(policy: Policy, tx: Seq<Instruction>, p: int, data: Seq<u8>) -> Result<
    (),
    TransferHookErr,
> {
    match execute_amount(data) {
        Some(_) => verdict(policy, tx, p),
        None => Err(TransferHookErr::InvalidCallback),
    }
}

/// Handles a raw callback: an execute request is decided by the rules, any
/// other payload is refused with `InvalidCallback`.
pub fn fallback(policy: &Policy, tx: &Vec<Instruction>, current_index: usize, data: &[u8]) -> (r:
    Result<(), TransferHookErr>)
    requires
        policy.wf(),
    ensures
        r == callback_outcome(*policy, tx@, current_index as int, data@),
{
    match execute_request(data) {
        Some(amount) => transfer_hook(policy, tx, current_index, amount),
        None => Err(TransferHookErr::InvalidCallback),
    }
}

} // verus!
