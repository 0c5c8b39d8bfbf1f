//! The three ordered rules that decide a transfer.
//!
//! The leading-instruction rule runs first, then the caller rule; the
//! trailing-instruction rule runs only for a direct transfer by the token
//! program. A marketplace list, delist or paid sale is allowed by the caller
//! rule alone and never reaches the trailing rule: a sale has already been
//! checked together with the royalty payment that follows it.
use vstd::prelude::*;

use crate::error::TransferHookErr;
use crate::instruction::{
    classify, has_tag, instruction_at, read_u64_le, starts_with, u64_at, Instruction,
};
use crate::policy::{Policy, TrailingPattern};

verus! {

/// Leading-instruction rule: `None` when it passes, else the denial.
pub open spec fn leading_rule(policy: Policy, tx: Seq<Instruction>, p: int) -> Option<TransferHookErr> {
    if p == 0 {
        None
    } else if p == 1 {
        match instruction_at(tx, 0) {
            None => Some(TransferHookErr::MissingTransferInstruction),
            Some(ix) => {
                if ix.program_id@ != policy.associated_token_program@ {
                    Some(TransferHookErr::InvalidProgram1)
                } else if !(ix.data@.len() >= 1 && ix.data@[0] == policy.create_account_opcode) {
                    Some(TransferHookErr::InvalidIx1)
                } else {
                    None
                }
            },
        }
    } else {
        Some(TransferHookErr::InvalidInstructionPosition)
    }
}

/// Whether `ix` is issued by the pattern's program with the pattern's opcode.
pub open spec fn matches_pattern(pattern: TrailingPattern, ix: Instruction) -> bool {
    &&& ix.program_id@ == pattern.program@
    &&& ix.data@.len() >= 1
    &&& ix.data@[0] == pattern.opcode
}

/// Whether some entry of the trailing allow-list matches `ix`.
pub open spec fn trailing_allowed(policy: Policy, ix: Instruction) -> bool {
    exists|k: int|
        0 <= k < policy.trailing_allowed@.len() && #[trigger] matches_pattern(
            policy.trailing_allowed@[k],
            ix,
        )
}

/// Trailing-instruction rule for a direct transfer at position `p`: nothing
/// may follow, or one allow-listed instruction and nothing after it.
pub open spec fn trailing_rule(policy: Policy, tx: Seq<Instruction>, p: int) -> Result<(), TransferHookErr> {
    match instruction_at(tx, p + 1) {
        None => Ok(()),
        Some(ix) => {
            if !trailing_allowed(policy, ix) {
                Err(TransferHookErr::UnauthorizedTrailingProgram)
            } else if instruction_at(tx, p + 2) is Some {
                Err(TransferHookErr::UnauthorizedTrailingInstruction)
            } else {
                Ok(())
            }
        },
    }
}

/// Royalty check of a sale at `price`: the instruction at `i` must pay the
/// royalty in a native transfer to the royalty recipient.
pub open spec fn royalty_rule(policy: Policy, tx: Seq<Instruction>, i: int, price: nat) -> Result<(), TransferHookErr> {
    match instruction_at(tx, i) {
        None => Err(TransferHookErr::RoyaltyMissing),
        Some(ix) => {
            if ix.program_id@ != policy.native_transfer_program@ {
                Err(TransferHookErr::RoyaltyProgram)
            } else if !(ix.data@.len() >= 1 && ix.data@[0] == policy.native_transfer_opcode) {
                Err(TransferHookErr::RoyaltyOpcode)
            } else if u64_at(ix.data@, 4) != Some(policy.royalty_of(price)) {
                Err(TransferHookErr::RoyaltyAmount)
            } else if !(ix.accounts@.len() >= 2 && ix.accounts@[1].address@
                == policy.royalty_recipient@) {
                Err(TransferHookErr::RoyaltyRecipient)
            } else {
                Ok(())
            }
        },
    }
}

/// Caller rule for a transfer the marketplace invoked at position `p` with
/// payload `data`.
pub open spec fn marketplace_rule(
    policy: Policy,
    tx: Seq<Instruction>,
    p: int,
    data: Seq<u8>,
) -> Result<(), TransferHookErr> {
    if starts_with(data, policy.list_opcode@) || starts_with(data, policy.delist_opcode@) {
        Ok(())
    } else if starts_with(data, policy.buy_opcode@) {
        match u64_at(data, 8) {
            None => Err(TransferHookErr::UnauthorizedInstruction2),
            Some(price) => royalty_rule(policy, tx, p + 1, price),
        }
    } else {
        Err(TransferHookErr::UnauthorizedInstruction2)
    }
}

/// The verdict on a transfer at position `p` of `tx`: `Ok` allows it, an
/// error denies it with the first failing rule's reason.
pub open spec fn verdict(policy: Policy, tx: Seq<Instruction>, p: int) -> Result<(), TransferHookErr> {
    match leading_rule(policy, tx, p) {
        Some(e) => Err(e),
        None => match instruction_at(tx, p) {
            None => Err(TransferHookErr::MissingTransferInstruction),
            Some(caller) => {
                if caller.program_id@ == policy.token_program@ {
                    trailing_rule(policy, tx, p)
                } else if caller.program_id@ == policy.marketplace@ {
                    marketplace_rule(policy, tx, p, caller.data@)
                } else {
                    Err(TransferHookErr::UnauthorizedCpi)
                }
            },
        },
    }
}

/// Applies the leading-instruction rule.
pub fn leading_gate(policy: &Policy, tx: &Vec<Instruction>, p: usize) -> (r: Option<
    TransferHookErr,
>)
    ensures
        r == leading_rule(*policy, tx@, p as int),
{
    if p == 0 {
        None
    } else if p == 1 {
        match classify(tx, 0) {
            None => Some(TransferHookErr::MissingTransferInstruction),
            Some(ix) => {
                if !ix.program_id.same_as(&policy.associated_token_program) {
                    Some(TransferHookErr::InvalidProgram1)
                } else if !(ix.data.len() >= 1 && ix.data[0] == policy.create_account_opcode) {
                    Some(TransferHookErr::InvalidIx1)
                } else {
                    None
                }
            },
        }
    } else {
        Some(TransferHookErr::InvalidInstructionPosition)
    }
}

/// Whether `ix` matches an entry of the policy's trailing allow-list.
pub fn is_trailing_allowed(policy: &Policy, ix: &Instruction) -> (r: bool)
    ensures
        r == trailing_allowed(*policy, *ix),
{
    let n = policy.trailing_allowed.len();
    let mut k: usize = 0;
    while k < n
        invariant
            0 <= k <= n,
            n == policy.trailing_allowed@.len(),
            forall|j: int|
                0 <= j < k ==> !#[trigger] matches_pattern(policy.trailing_allowed@[j], *ix),
        decreases n - k,
    {
        let pattern = &policy.trailing_allowed[k];
        if ix.program_id.same_as(&pattern.program) && ix.data.len() >= 1 && ix.data[0]
            == pattern.opcode {
            assert(matches_pattern(policy.trailing_allowed@[k as int], *ix));
            return true;
        }
        k = k + 1;
    }
    false
}

/// Applies the trailing-instruction rule to a direct transfer at `p`.
pub fn trailing_gate(policy: &Policy, tx: &Vec<Instruction>, p: usize) -> (r: Result<
    (),
    TransferHookErr,
>)
    requires
        p + 2 <= usize::MAX,
    ensures
        r == trailing_rule(*policy, tx@, p as int),
{
    match classify(tx, p + 1) {
        None => Ok(()),
        Some(ix) => {
            if !is_trailing_allowed(policy, ix) {
                Err(TransferHookErr::UnauthorizedTrailingProgram)
            } else if classify(tx, p + 2).is_some() {
                Err(TransferHookErr::UnauthorizedTrailingInstruction)
            } else {
                Ok(())
            }
        },
    }
}

/// The royalty owed on a sale at `price` under the policy's rate.
pub fn royalty_for(policy: &Policy, price: u64) -> (r: u128)
    requires
        policy.wf(),
    ensures
        r as nat == policy.royalty_of(price as nat),
{
    let num = policy.royalty_numerator as u128;
    let den = policy.royalty_denominator as u128;
    let p = price as u128;
    proof {
        assert(p * num <= 0xffff_ffff_ffff_ffff * 0xffff_ffff_ffff_ffffu128) by (nonlinear_arith)
            requires
                p <= 0xffff_ffff_ffff_ffff,
                num <= 0xffff_ffff_ffff_ffff,
        ;
    }
    (p * num) / den
}

/// Applies the royalty check of a sale at `price` to the instruction at `i`.
pub fn royalty_gate(policy: &Policy, tx: &Vec<Instruction>, i: usize, price: u64) -> (r: Result<
    (),
    TransferHookErr,
>)
    requires
        policy.wf(),
    ensures
        r == royalty_rule(*policy, tx@, i as int, price as nat),
{
    match classify(tx, i) {
        None => Err(TransferHookErr::RoyaltyMissing),
        Some(ix) => {
            if !ix.program_id.same_as(&policy.native_transfer_program) {
                return Err(TransferHookErr::RoyaltyProgram);
            }
            if !(ix.data.len() >= 1 && ix.data[0] == policy.native_transfer_opcode) {
                return Err(TransferHookErr::RoyaltyOpcode);
            }
            let owed = royalty_for(policy, price);
            let paid_ok = match read_u64_le(&ix.data, 4) {
                None => false,
                Some(paid) => paid as u128 == owed,
            };
            if !paid_ok {
                return Err(TransferHookErr::RoyaltyAmount);
            }
            if !(ix.accounts.len() >= 2 && ix.accounts[1].address.same_as(
                &policy.royalty_recipient,
            )) {
                return Err(TransferHookErr::RoyaltyRecipient);
            }
            Ok(())
        },
    }
}

/// Applies the caller rule to a transfer the marketplace invoked at `p`
/// with payload `data`.
pub fn marketplace_gate(policy: &Policy, tx: &Vec<Instruction>, p: usize, data: &Vec<u8>) -> (r:
    Result<(), TransferHookErr>)
    requires
        policy.wf(),
        p + 1 <= usize::MAX,
    ensures
        r == marketplace_rule(*policy, tx@, p as int, data@),
{
    if has_tag(data.as_slice(), &policy.list_opcode) || has_tag(data.as_slice(), &policy.delist_opcode) {
        Ok(())
    } else if has_tag(data.as_slice(), &policy.buy_opcode) {
        match read_u64_le(data, 8) {
            None => Err(TransferHookErr::UnauthorizedInstruction2),
            Some(price) => royalty_gate(policy, tx, p + 1, price),
        }
    } else {
        Err(TransferHookErr::UnauthorizedInstruction2)
    }
}

/// Decides a transfer of `amount` whose own instruction stands at
/// `current_index` of `tx`. The verdict depends on the transaction and the
/// position only: the amount is part of the callback and does not change it.
pub fn transfer_hook(policy: &Policy, tx: &Vec<Instruction>, current_index: usize, _amount: u64) -> (r:
    Result<(), TransferHookErr>)
    requires
        policy.wf(),
    ensures
        r == verdict(*policy, tx@, current_index as int),
{
    if let Some(e) = leading_gate(policy, tx, current_index) {
        return Err(e);
    }
    match classify(tx, current_index) {
        None => Err(TransferHookErr::MissingTransferInstruction),
        Some(caller) => {
            if caller.program_id.same_as(&policy.token_program) {
                trailing_gate(policy, tx, current_index)
            } else if caller.program_id.same_as(&policy.marketplace) {
                marketplace_gate(policy, tx, current_index, &caller.data)
            } else {
                Err(TransferHookErr::UnauthorizedCpi)
            }
        },
    }
}

} // verus!
