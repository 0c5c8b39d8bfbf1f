//! General properties of the verdict.
use vstd::prelude::*;

use crate::dispatch::callback_outcome;
use crate::error::TransferHookErr;
use crate::instruction::{starts_with, Instruction};
use crate::policy::Policy;
use crate::rules::{leading_rule, verdict};

verus! {

/// A direct transfer by the token program that stands alone in its
/// transaction is allowed.
pub proof fn lemma_lone_direct_transfer_allowed(policy: Policy, tx: Seq<Instruction>)
    requires
        tx.len() == 1,
        tx[0].program_id@ == policy.token_program@,
    ensures
        verdict(policy, tx, 0) == Ok::<(), TransferHookErr>(()),
{
}

/// A transfer at position 1 whose predecessor is not the creation of an
/// associated account is denied by the leading-instruction rule.
pub proof fn lemma_second_position_needs_account_creation(policy: Policy, tx: Seq<Instruction>)
    requires
        tx.len() >= 2,
        !(tx[0].program_id@ == policy.associated_token_program@ && tx[0].data@.len() >= 1
            && tx[0].data@[0] == policy.create_account_opcode),
    ensures
        verdict(policy, tx, 1) == Err::<(), TransferHookErr>(TransferHookErr::InvalidProgram1)
            || verdict(policy, tx, 1) == Err::<(), TransferHookErr>(TransferHookErr::InvalidIx1),
{
}

/// A transfer at position 2 or later is always denied by the
/// leading-instruction rule, whatever the transaction holds.
pub proof fn lemma_deep_position_denied(policy: Policy, tx: Seq<Instruction>, p: int)
    requires
        p >= 2,
    ensures
        verdict(policy, tx, p) == Err::<(), TransferHookErr>(
            TransferHookErr::InvalidInstructionPosition,
        ),
{
}

/// A marketplace listing that passes the leading-instruction rule is
/// allowed, whatever instructions follow it.
pub proof fn lemma_marketplace_listing_allowed(policy: Policy, tx: Seq<Instruction>, p: int)
    requires
        policy.token_program@ != policy.marketplace@,
        0 <= p < tx.len(),
        leading_rule(policy, tx, p) is None,
        tx[p].program_id@ == policy.marketplace@,
        starts_with(tx[p].data@, policy.list_opcode@),
    ensures
        verdict(policy, tx, p) == Ok::<(), TransferHookErr>(()),
{
}

/// A direct transfer followed by two or more instructions is denied; once the
/// leading-instruction rule passes, the denial comes from the trailing rule.
pub proof fn lemma_two_trailing_instructions_denied(policy: Policy, tx: Seq<Instruction>, p: int)
    requires
        0 <= p,
        p + 2 < tx.len(),
        tx[p].program_id@ == policy.token_program@,
    ensures
        verdict(policy, tx, p) is Err,
        leading_rule(policy, tx, p) is None ==> (verdict(policy, tx, p) == Err::<(), TransferHookErr>(
            TransferHookErr::UnauthorizedTrailingProgram,
        ) || verdict(policy, tx, p) == Err::<(), TransferHookErr>(
            TransferHookErr::UnauthorizedTrailingInstruction,
        )),
{
}

/// A transfer invoked by a program that is neither the token program nor the
/// marketplace is denied; once the leading-instruction rule passes, the
/// denial is `UnauthorizedCpi`.
pub proof fn lemma_unknown_caller_denied(policy: Policy, tx: Seq<Instruction>, p: int)
    requires
        0 <= p < tx.len(),
        tx[p].program_id@ != policy.token_program@,
        tx[p].program_id@ != policy.marketplace@,
    ensures
        verdict(policy, tx, p) is Err,
        leading_rule(policy, tx, p) is None ==> verdict(policy, tx, p) == Err::<(), TransferHookErr>(
            TransferHookErr::UnauthorizedCpi,
        ),
{
}

/// The outcome of a callback depends on the transaction, the position and
/// the payload alone: the same inputs give the same outcome each time.
pub proof fn lemma_outcome_repeatable(
    policy: Policy,
    tx1: Seq<Instruction>,
    tx2: Seq<Instruction>,
    p: int,
    data: Seq<u8>,
)
    requires
        tx1 == tx2,
    ensures
        callback_outcome(policy, tx1, p, data) == callback_outcome(policy, tx2, p, data),
{
}

} // verus!
