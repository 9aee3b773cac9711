//! System-wide properties of the engine, proved once over its transition
//! specification.
//!
//! Every mutation the engine performs on its stored operations is pinned by
//! the contracts in [`crate::engine`] to either an insert at a fresh
//! identifier ([`SwapEngine::initiate`]) or the dispatcher transition
//! [`notify_next_ops`] ([`SwapEngine::on_step_completed`]).  The lemmas here
//! therefore speak about whole sequences of such calls.
//!
//! [`SwapEngine::initiate`]: crate::engine::SwapEngine::initiate
//! [`SwapEngine::on_step_completed`]: crate::engine::SwapEngine::on_step_completed

use crate::engine::abort_actions;
use crate::engine::is_final_step;
use crate::engine::notify_accepted;
use crate::engine::notify_next_ops;
use crate::engine::pending_step_tick;
use crate::engine::settle_ok;
use crate::engine::settlement_fee_total;
use crate::settlement::spec_settlement_output;
use crate::settlement::spec_settlement_refund;
use crate::types::op_wf;
use crate::types::ActionModel;
use crate::types::OpModel;
use crate::types::OutcomeModel;
use vstd::prelude::*;

verus! {

/// One call at the engine's boundary, reduced to its effect on the stored
/// operations: a request admitted under a fresh identifier, or a completion
/// notification.
pub ghost enum CallModel {
    Initiate { operation_id: u64, op: OpModel },
    Notify { operation_id: u64, step_index: int, outcome: OutcomeModel },
}

/// The operation identifier a call is about.
pub open spec fn call_target(call: CallModel) -> u64 {
    match call {
        CallModel::Initiate { operation_id, op } => operation_id,
        CallModel::Notify { operation_id, step_index, outcome } => operation_id,
    }
}

/// The stored state after one call.  An admitted request creates its entry —
/// the engine only ever admits one under an identifier not yet stored — and
/// a completion notification takes the dispatcher transition.
pub open spec fn apply_call(ops: Map<u64, OpModel>, call: CallModel) -> Map<u64, OpModel> {
    match call {
        CallModel::Initiate { operation_id, op } => if !ops.contains_key(operation_id) {
            ops.insert(operation_id, op)
        } else {
            ops
        },
        CallModel::Notify { operation_id, step_index, outcome } => notify_next_ops(
            ops,
            operation_id,
            step_index,
            outcome,
        ),
    }
}

/// The stored state after a sequence of calls, applied in order.
pub open spec fn apply_calls(ops: Map<u64, OpModel>, calls: Seq<CallModel>) -> Map<u64, OpModel>
    decreases calls.len(),
{
    if calls.len() == 0 {
        ops
    } else {
        apply_call(apply_calls(ops, calls.drop_last()), calls.last())
    }
}

/// One call touches only the operation it is about: every other identifier's
/// stored state is unchanged.
pub proof fn lemma_call_isolation(ops: Map<u64, OpModel>, call: CallModel, other: u64)
    requires
        call_target(call) != other,
    ensures
        apply_call(ops, call).contains_key(other) == ops.contains_key(other),
        ops.contains_key(other) ==> apply_call(ops, call)[other] == ops[other],
{
}

/// Isolation: no sequence of calls about other operations — requests,
/// completions, duplicates, failures — ever changes the stored state of an
/// operation none of them is about, or makes one appear or disappear.
pub proof fn lemma_isolation(ops: Map<u64, OpModel>, calls: Seq<CallModel>, other: u64)
    requires
        forall|i: int| 0 <= i < calls.len() ==> #[trigger] call_target(calls[i]) != other,
    ensures
        apply_calls(ops, calls).contains_key(other) == ops.contains_key(other),
        ops.contains_key(other) ==> apply_calls(ops, calls)[other] == ops[other],
    decreases calls.len(),
{
    if calls.len() > 0 {
        assert(call_target(calls[calls.len() - 1]) != other);
        lemma_isolation(ops, calls.drop_last(), other);
        lemma_call_isolation(apply_calls(ops, calls.drop_last()), calls.last(), other);
    }
}

/// A notification is terminal when it is accepted and ends the operation:
/// any failure, or a settled final step.
pub open spec fn notify_terminal(
    ops: Map<u64, OpModel>,
    operation_id: u64,
    step_index: int,
    outcome: OutcomeModel,
) -> bool {
    &&& notify_accepted(ops, operation_id, step_index)
    &&& match outcome {
        OutcomeModel::Failure { reason } => true,
        OutcomeModel::Success { quantity, price, fee } => is_final_step(ops[operation_id])
            && settle_ok(ops[operation_id], quantity, fee),
    }
}

/// Exactly-once settlement: a terminal notification removes the operation's
/// entry, so every later notification for that operation — a duplicate of the
/// same step or any other — is no longer accepted and leaves the state
/// unchanged.  Settlement and refund transfers are only ever emitted by an
/// accepted notification, hence at most once per operation; the entry is
/// removed at most once for the same reason.
pub proof fn lemma_exactly_once_settlement(
    ops: Map<u64, OpModel>,
    operation_id: u64,
    step_index: int,
    outcome: OutcomeModel,
    later_step: int,
    later_outcome: OutcomeModel,
)
    requires
        notify_terminal(ops, operation_id, step_index, outcome),
    ensures
        ({
            let after = notify_next_ops(ops, operation_id, step_index, outcome);
            &&& !after.contains_key(operation_id)
            &&& !notify_accepted(after, operation_id, later_step)
            &&& notify_next_ops(after, operation_id, later_step, later_outcome) == after
        }),
{
}

/// Conservation against the escrow: an operation whose single (hence final)
/// step settles splits the deposited amount itself — output, refund and fee
/// sum exactly to `input_funds.amount`, with no residual.
pub proof fn lemma_deposit_conservation_at_settlement(op: OpModel, quantity: int, fee: int)
    requires
        op_wf(op),
        op.cursor.step_idx == 0,
        is_final_step(op),
        settle_ok(op, quantity, fee),
    ensures
        spec_settlement_output(quantity, pending_step_tick(op), settlement_fee_total(op, fee))
            + spec_settlement_refund(op.input_funds.amount, quantity, pending_step_tick(op))
            + settlement_fee_total(op, fee) == op.input_funds.amount,
{
}

/// Conservation on failure: a step failure before any step has completed
/// refunds the initiator the whole escrowed deposit, in its own
/// denomination, in a single transfer.
pub proof fn lemma_deposit_refunded_on_first_step_abort(op: OpModel)
    requires
        op_wf(op),
        op.cursor.step_idx == 0,
    ensures
        abort_actions(op) == seq![
            ActionModel::Transfer {
                recipient: op.sender_address,
                amount: op.input_funds.amount,
                denom: op.input_funds.denom,
            },
        ],
{
    assert(op.cursor.current_balance.amount > 0);
}

} // verus!
