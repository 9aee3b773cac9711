//! The step orchestrator and continuation dispatcher.
//!
//! [`SwapEngine::initiate`] admits a request, stores the operation under a
//! fresh identifier and issues the first step call.
//! [`SwapEngine::on_step_completed`] routes a completion notification back to
//! the operation that caused it: a stale or unknown notification is rejected
//! without touching any state; a failure always aborts the operation,
//! refunding its unconsumed balance; a success either issues the next step or
//! performs the one-time settlement.
//!
//! The transition of the stored state is itself a specification function,
//! [`notify_next_ops`], so that properties about whole call sequences can be
//! stated and proved once over it (see [`crate::laws`]).

use crate::settlement::compute_settlement;
use crate::settlement::spec_fee_total;
use crate::settlement::spec_settlement_ok;
use crate::settlement::spec_settlement_output;
use crate::settlement::spec_settlement_refund;
use crate::settlement::sum_fees;
use crate::store::OperationStore;
use crate::types::actions_model;
use crate::types::op_wf;
use crate::types::Action;
use crate::types::ActionModel;
use crate::types::Coin;
use crate::types::CoinModel;
use crate::types::CurrentSwapOperation;
use crate::types::CurrentSwapStep;
use crate::types::CursorModel;
use crate::types::OpModel;
use crate::types::OperationStatus;
use crate::types::OutcomeModel;
use crate::types::ResultModel;
use crate::types::StepModel;
use crate::types::StepOutcome;
use crate::types::SwapError;
use crate::types::SwapResults;
use crate::types::SwapStep;
use crate::types::steps_model;
use vstd::pervasive::unreached;
use vstd::prelude::*;

verus! {

// ---------------------------------------------------------------------------
// Specification of the engine's transitions.
// ---------------------------------------------------------------------------

/// A request is admitted exactly when it names at least one step, every
/// step's tick size is usable, and the deposit is positive.
pub open spec fn spec_request_valid(deposited: CoinModel, steps: Seq<StepModel>) -> bool {
    &&& steps.len() >= 1
    &&& forall|i: int| 0 <= i < steps.len() ==> #[trigger] steps[i].min_tick >= 1
    &&& deposited.amount >= 1
}

/// The operation created for an admitted request: active at step 0, with the
/// whole deposit as its running balance and nothing recorded yet.
pub open spec fn fresh_op(
    initiator: Seq<char>,
    deposited: CoinModel,
    steps: Seq<StepModel>,
) -> OpModel {
    OpModel {
        sender_address: initiator,
        swap_steps: steps,
        input_funds: deposited,
        status: OperationStatus::Active,
        cursor: CursorModel { step_idx: 0, current_balance: deposited },
        results: Seq::empty(),
    }
}

/// A completion notification is accepted exactly when it names a stored
/// operation and that operation's current step; anything else is stale or
/// unknown and must not mutate state.
pub open spec fn notify_accepted(ops: Map<u64, OpModel>, operation_id: u64, step_index: int) -> bool {
    ops.contains_key(operation_id) && ops[operation_id].cursor.step_idx == step_index
}

/// Whether the operation's pending step is its last.
pub open spec fn is_final_step(op: OpModel) -> bool {
    op.cursor.step_idx == op.swap_steps.len() - 1
}

/// The result recorded for the operation's pending step.
pub open spec fn recorded_result(op: OpModel, quantity: int, price: int, fee: int) -> ResultModel {
    ResultModel {
        market_id: op.swap_steps[op.cursor.step_idx].market_id,
        quantity,
        price,
        fee,
    }
}

/// The operation after a successful non-final step: the result is appended,
/// the running balance becomes the reported fill in the step's target
/// denomination, and the cursor moves by exactly one.
pub open spec fn step_success_next(op: OpModel, quantity: int, price: int, fee: int) -> OpModel {
    OpModel {
        sender_address: op.sender_address,
        swap_steps: op.swap_steps,
        input_funds: op.input_funds,
        status: op.status,
        cursor: CursorModel {
            step_idx: op.cursor.step_idx + 1,
            current_balance: CoinModel {
                amount: quantity,
                denom: op.swap_steps[op.cursor.step_idx].target_denom,
            },
        },
        results: op.results.push(recorded_result(op, quantity, price, fee)),
    }
}

/// The funds available to the operation's pending step.
pub open spec fn settlement_available(op: OpModel) -> int {
    op.cursor.current_balance.amount
}

/// The tick size of the operation's pending step.
pub open spec fn pending_step_tick(op: OpModel) -> int {
    op.swap_steps[op.cursor.step_idx].min_tick
}

/// All fees owed at settlement: those recorded for earlier steps plus the
/// one reported for the final step.
pub open spec fn settlement_fee_total(op: OpModel, fee: int) -> int {
    spec_fee_total(op.results) + fee
}

/// Whether the final step's reported fill can be settled: its tick-aligned
/// required input fits in the available funds and the fees fit in the
/// proceeds.
pub open spec fn settle_ok(op: OpModel, quantity: int, fee: int) -> bool {
    spec_settlement_ok(
        settlement_available(op),
        quantity,
        pending_step_tick(op),
        settlement_fee_total(op, fee),
    )
}

/// The stored state after a completion notification: unchanged when the
/// notification is stale or unknown, the entry removed on failure or on a
/// settled final step, the entry advanced on a successful non-final step,
/// and unchanged when settlement would violate the conservation invariant.
pub open spec fn notify_next_ops(
    ops: Map<u64, OpModel>,
    operation_id: u64,
    step_index: int,
    outcome: OutcomeModel,
) -> Map<u64, OpModel> {
    if !notify_accepted(ops, operation_id, step_index) {
        ops
    } else {
        let op = ops[operation_id];
        match outcome {
            OutcomeModel::Failure { reason } => ops.remove(operation_id),
            OutcomeModel::Success { quantity, price, fee } => {
                if !is_final_step(op) {
                    ops.insert(operation_id, step_success_next(op, quantity, price, fee))
                } else if settle_ok(op, quantity, fee) {
                    ops.remove(operation_id)
                } else {
                    ops
                }
            },
        }
    }
}

/// The transfer emitted when an operation is aborted: its whole unconsumed
/// balance goes back to the initiator; a zero balance emits nothing.
pub open spec fn abort_actions(op: OpModel) -> Seq<ActionModel> {
    if op.cursor.current_balance.amount > 0 {
        seq![
            ActionModel::Transfer {
                recipient: op.sender_address,
                amount: op.cursor.current_balance.amount,
                denom: op.cursor.current_balance.denom,
            },
        ]
    } else {
        Seq::empty()
    }
}

/// The transfers emitted by the one-time settlement of a completed
/// operation, in order: output to the initiator, refund to the initiator,
/// fee to the fee recipient — each omitted when its amount is zero.
pub open spec fn settlement_actions(
    op: OpModel,
    quantity: int,
    fee: int,
    fee_recipient: Seq<char>,
) -> Seq<ActionModel> {
    let tick = pending_step_tick(op);
    let fee_total = settlement_fee_total(op, fee);
    let available = settlement_available(op);
    let output_amount = spec_settlement_output(quantity, tick, fee_total);
    let refund_amount = spec_settlement_refund(available, quantity, tick);
    let target_denom = op.swap_steps[op.cursor.step_idx].target_denom;
    let output_part: Seq<ActionModel> = if output_amount > 0 {
        seq![
            ActionModel::Transfer {
                recipient: op.sender_address,
                amount: output_amount,
                denom: target_denom,
            },
        ]
    } else {
        Seq::empty()
    };
    let refund_part: Seq<ActionModel> = if refund_amount > 0 {
        seq![
            ActionModel::Transfer {
                recipient: op.sender_address,
                amount: refund_amount,
                denom: op.cursor.current_balance.denom,
            },
        ]
    } else {
        Seq::empty()
    };
    let fee_part: Seq<ActionModel> = if fee_total > 0 {
        seq![
            ActionModel::Transfer { recipient: fee_recipient, amount: fee_total, denom: target_denom },
        ]
    } else {
        Seq::empty()
    };
    output_part + refund_part + fee_part
}

/// The step call issued when a successful non-final step advances the
/// operation: the next step, fed with the reported fill.
pub open spec fn advance_actions(operation_id: u64, op: OpModel, quantity: int) -> Seq<
    ActionModel,
> {
    seq![
        ActionModel::IssueStepCall {
            operation_id,
            step_index: op.cursor.step_idx + 1,
            step: op.swap_steps[op.cursor.step_idx + 1],
            input_amount: quantity,
        },
    ]
}

// ---------------------------------------------------------------------------
// The engine.
// ---------------------------------------------------------------------------

/// Ghost model of a [`SwapEngine`]: the stored operations, the next fresh
/// identifier and the fee recipient.
pub ghost struct EngineModel {
    pub ops: Map<u64, OpModel>,
    pub next_id: u64,
    pub fee_recipient: Seq<char>,
}

/// Every stored operation is well formed and was created under an identifier
/// below the next fresh one, so fresh identifiers never collide.
pub open spec fn engine_wf(m: EngineModel) -> bool {
    forall|k: u64| #[trigger] m.ops.contains_key(k) ==> op_wf(m.ops[k]) && k < m.next_id
}

/// The swap orchestration engine: a keyed store of in-flight operations, an
/// identifier generator and the fee recipient's identity.
pub struct SwapEngine {
    store: OperationStore,
    next_id: u64,
    fee_recipient: String,
}

impl View for SwapEngine {
    type V = EngineModel;

    closed spec fn view(&self) -> EngineModel {
        EngineModel {
            ops: self.store@,
            next_id: self.next_id,
            fee_recipient: self.fee_recipient@,
        }
    }
}

impl SwapEngine {
    /// Whether the engine's stored state is well formed.
    pub open spec fn wf(&self) -> bool {
        engine_wf(self@)
    }

    /// A fresh engine with no in-flight operation.
    pub fn new(fee_recipient: String) -> (engine: SwapEngine)
        ensures
            engine.wf(),
            engine@.ops == Map::<u64, OpModel>::empty(),
            engine@.next_id == 0,
            engine@.fee_recipient == fee_recipient@,
    {
        SwapEngine { store: OperationStore::new(), next_id: 0, fee_recipient }
    }

    /// Reads the operation stored under `operation_id`, if any.
    pub fn get_operation(&self, operation_id: u64) -> (r: Option<&CurrentSwapOperation>)
        ensures
            match r {
                Some(op) => self@.ops.contains_key(operation_id) && op@ == self@.ops[operation_id],
                None => !self@.ops.contains_key(operation_id),
            },
    {
        self.store.get(operation_id)
    }

    /// Admits a swap request: validates it, escrows the deposit under a
    /// fresh operation identifier and issues the call for step 0.  Rejected
    /// requests create no state and move no funds.
    pub fn initiate(&mut self, initiator: String, deposited_funds: Coin, steps: Vec<SwapStep>)
        -> (r: Result<(u64, Vec<Action>), SwapError>)
        requires
            old(self).wf(),
            old(self)@.next_id < u64::MAX,
        ensures
            final(self).wf(),
            final(self)@.fee_recipient == old(self)@.fee_recipient,
            r is Ok <==> spec_request_valid(deposited_funds@, steps_model(steps@)),
            r is Err ==> r == Err::<(u64, Vec<Action>), SwapError>(SwapError::InvalidRequest)
                && final(self)@ == old(self)@,
            r matches Ok(ok) ==> {
                &&& ok.0 == old(self)@.next_id
                &&& !old(self)@.ops.contains_key(ok.0)
                &&& final(self)@.next_id == old(self)@.next_id + 1
                &&& final(self)@.ops == old(self)@.ops.insert(
                    ok.0,
                    fresh_op(initiator@, deposited_funds@, steps_model(steps@)),
                )
                &&& actions_model(ok.1@) == seq![
                    ActionModel::IssueStepCall {
                        operation_id: ok.0,
                        step_index: 0,
                        step: steps_model(steps@)[0],
                        input_amount: deposited_funds@.amount,
                    },
                ]
            },
    {
        if steps.len() == 0 || deposited_funds.amount == 0 || !ticks_valid(&steps) {
            return Err(SwapError::InvalidRequest);
        }

        let operation_id = self.next_id;
        self.next_id = self.next_id + 1;

        let balance = deposited_funds.duplicate();
        let first_step = steps[0].duplicate();
        let input_amount = deposited_funds.amount;

        let op = CurrentSwapOperation {
            sender_address: initiator,
            swap_steps: steps,
            input_funds: deposited_funds,
            status: OperationStatus::Active,
            cursor: CurrentSwapStep { step_idx: 0, current_balance: balance },
            results: Vec::new(),
        };

        proof {
            // `operation_id` is fresh: every stored key is below it.
            assert(!old(self)@.ops.contains_key(operation_id));
            assert(op@.results =~= Seq::<ResultModel>::empty());
            assert(op@ == fresh_op(op@.sender_address, op@.input_funds, op@.swap_steps));
        }

        self.store.insert_new(operation_id, op);

        let mut actions: Vec<Action> = Vec::new();
        actions.push(
            Action::IssueStepCall { operation_id, step_index: 0, step: first_step, input_amount },
        );

        proof {
            assert(actions_model(actions@) =~= seq![
                ActionModel::IssueStepCall {
                    operation_id,
                    step_index: 0,
                    step: steps_model(op.swap_steps@)[0],
                    input_amount: deposited_funds@.amount,
                },
            ]);
        }

        Ok((operation_id, actions))
    }

    /// Routes a completion notification to the operation that caused it.
    ///
    /// A notification that names no stored operation, or a step other than
    /// the one pending, is rejected as stale without mutating anything — a
    /// duplicate or delayed notification can never advance an operation
    /// twice or emit a second settlement.  An accepted failure aborts the
    /// operation; an accepted success advances it or settles it.  Both
    /// outcomes of every issued call are therefore resolved: no path leaves
    /// an operation active with no pending call.
    pub fn on_step_completed(
        &mut self,
        operation_id: u64,
        step_index: usize,
        outcome: StepOutcome,
    ) -> (r: Result<Vec<Action>, SwapError>)
        requires
            old(self).wf(),
        ensures
            final(self).wf(),
            final(self)@.next_id == old(self)@.next_id,
            final(self)@.fee_recipient == old(self)@.fee_recipient,
            final(self)@.ops == notify_next_ops(
                old(self)@.ops,
                operation_id,
                step_index as int,
                outcome@,
            ),
            // Stale rejection: nothing is mutated and no action is emitted.
            !notify_accepted(old(self)@.ops, operation_id, step_index as int) ==> r == Err::<
                Vec<Action>,
                SwapError,
            >(SwapError::StaleOrUnknownContinuation) && final(self)@ == old(self)@,
            // An accepted failure aborts: the unconsumed balance is refunded
            // and the entry is removed.
            notify_accepted(old(self)@.ops, operation_id, step_index as int) && outcome@ is Failure
                ==> (r matches Ok(actions) && actions_model(actions@) == abort_actions(
                old(self)@.ops[operation_id],
            )),
            // An accepted success advances or settles.
            notify_accepted(old(self)@.ops, operation_id, step_index as int) ==> (outcome@ matches
                OutcomeModel::Success { quantity, price, fee } ==> {
                let op = old(self)@.ops[operation_id];
                &&& !is_final_step(op) ==> (r matches Ok(actions) && actions_model(actions@)
                    == advance_actions(operation_id, op, quantity))
                &&& is_final_step(op) && settle_ok(op, quantity, fee) ==> (r matches Ok(actions)
                    && actions_model(actions@) == settlement_actions(
                    op,
                    quantity,
                    fee,
                    old(self)@.fee_recipient,
                ))
                &&& is_final_step(op) && settle_ok(op, quantity, fee) ==> spec_settlement_output(
                    quantity,
                    pending_step_tick(op),
                    settlement_fee_total(op, fee),
                ) + spec_settlement_refund(settlement_available(op), quantity, pending_step_tick(op))
                    + settlement_fee_total(op, fee) == settlement_available(op)
                &&& is_final_step(op) && !settle_ok(op, quantity, fee) ==> r == Err::<
                    Vec<Action>,
                    SwapError,
                >(SwapError::SettlementInvariantViolation) && final(self)@ == old(self)@
            }),
    {
        let stale = match self.store.get(operation_id) {
            None => true,
            Some(op) => op.cursor.step_idx != step_index,
        };

        if stale {
            return Err(SwapError::StaleOrUnknownContinuation);
        }

        match outcome {
            StepOutcome::Failure { reason: _ } => Ok(self.abort(operation_id)),
            StepOutcome::Success { quantity, price, fee } => self.advance(
                operation_id,
                quantity,
                price,
                fee,
            ),
        }
    }

    /// Aborts a stored operation: removes its entry and refunds its whole
    /// unconsumed balance to the initiator.
    fn abort(&mut self, operation_id: u64) -> (actions: Vec<Action>)
        requires
            old(self).wf(),
            old(self)@.ops.contains_key(operation_id),
        ensures
            final(self).wf(),
            final(self)@.next_id == old(self)@.next_id,
            final(self)@.fee_recipient == old(self)@.fee_recipient,
            final(self)@.ops == old(self)@.ops.remove(operation_id),
            actions_model(actions@) == abort_actions(old(self)@.ops[operation_id]),
    {
        let op = match self.store.remove(operation_id) {
            Some(op) => op,
            None => unreached(),
        };

        let mut actions: Vec<Action> = Vec::new();
        let amount = op.cursor.current_balance.amount;

        if amount > 0 {
            let recipient = op.sender_address;
            let denom = op.cursor.current_balance.denom;
            actions.push(Action::Transfer { recipient, amount, denom });
        }

        proof {
            assert(actions_model(actions@) =~= abort_actions(old(self)@.ops[operation_id]));
        }

        actions
    }

    /// Advances a stored operation after a successful step: records the
    /// result, and either issues the next step fed with the reported fill or
    /// — on the final step — performs the one-time settlement and removes
    /// the entry.
    fn advance(&mut self, operation_id: u64, quantity: u128, price: u128, fee: u128) -> (r: Result<
        Vec<Action>,
        SwapError,
    >)
        requires
            old(self).wf(),
            old(self)@.ops.contains_key(operation_id),
        ensures
            final(self).wf(),
            final(self)@.next_id == old(self)@.next_id,
            final(self)@.fee_recipient == old(self)@.fee_recipient,
            ({
                let op = old(self)@.ops[operation_id];
                &&& !is_final_step(op) ==> {
                    &&& final(self)@.ops == old(self)@.ops.insert(
                        operation_id,
                        step_success_next(op, quantity as int, price as int, fee as int),
                    )
                    &&& (r matches Ok(actions) && actions_model(actions@) == advance_actions(
                        operation_id,
                        op,
                        quantity as int,
                    ))
                }
                &&& is_final_step(op) && settle_ok(op, quantity as int, fee as int) ==> {
                    &&& final(self)@.ops == old(self)@.ops.remove(operation_id)
                    &&& (r matches Ok(actions) && actions_model(actions@) == settlement_actions(
                        op,
                        quantity as int,
                        fee as int,
                        old(self)@.fee_recipient,
                    ))
                }
                &&& is_final_step(op) && !settle_ok(op, quantity as int, fee as int) ==> r == Err::<
                    Vec<Action>,
                    SwapError,
                >(SwapError::SettlementInvariantViolation) && final(self)@ == old(self)@
            }),
    {
        let is_final = match self.store.get(operation_id) {
            Some(op) => {
                let route_len = op.swap_steps.len();
                proof {
                    assert(op_wf(op@));
                    assert(op@.cursor.step_idx < op@.swap_steps.len());
                    assert(op@.swap_steps.len() == route_len as int);
                }
                op.cursor.step_idx + 1 == route_len
            },
            None => unreached(),
        };

        if !is_final {
            self.advance_to_next_step(operation_id, quantity, price, fee)
        } else {
            self.settle(operation_id, quantity, fee)
        }
    }

    /// Records a successful non-final step and issues the next one.
    fn advance_to_next_step(&mut self, operation_id: u64, quantity: u128, price: u128, fee: u128)
        -> (r: Result<Vec<Action>, SwapError>)
        requires
            old(self).wf(),
            old(self)@.ops.contains_key(operation_id),
            !is_final_step(old(self)@.ops[operation_id]),
        ensures
            final(self).wf(),
            final(self)@.next_id == old(self)@.next_id,
            final(self)@.fee_recipient == old(self)@.fee_recipient,
            final(self)@.ops == old(self)@.ops.insert(
                operation_id,
                step_success_next(
                    old(self)@.ops[operation_id],
                    quantity as int,
                    price as int,
                    fee as int,
                ),
            ),
            r matches Ok(actions) && actions_model(actions@) == advance_actions(
                operation_id,
                old(self)@.ops[operation_id],
                quantity as int,
            ),
    {
        let ghost old_op = old(self)@.ops[operation_id];

        let mut op = match self.store.remove(operation_id) {
            Some(op) => op,
            None => unreached(),
        };

        let route_len = op.swap_steps.len();
        proof {
            assert(op_wf(old_op));
            assert(op@ == old_op);
            assert(op@.cursor.step_idx < op@.swap_steps.len() - 1);
            assert(op@.swap_steps.len() == route_len as int);
        }

        let idx = op.cursor.step_idx;
        let market_id = op.swap_steps[idx].market_id.clone();
        let target_denom = op.swap_steps[idx].target_denom.clone();
        let next_idx = idx + 1;
        let next_step = op.swap_steps[next_idx].duplicate();

        op.results.push(SwapResults { market_id, quantity, price, fee });
        op.cursor.current_balance = Coin { amount: quantity, denom: target_denom };
        op.cursor.step_idx = next_idx;

        proof {
            assert(op@.results =~= step_success_next(
                old_op,
                quantity as int,
                price as int,
                fee as int,
            ).results);
            assert(op@ == step_success_next(old_op, quantity as int, price as int, fee as int));
        }

        self.store.insert_new(operation_id, op);

        let mut actions: Vec<Action> = Vec::new();
        actions.push(
            Action::IssueStepCall {
                operation_id,
                step_index: next_idx,
                step: next_step,
                input_amount: quantity,
            },
        );

        proof {
            assert(actions_model(actions@) =~= advance_actions(
                operation_id,
                old_op,
                quantity as int,
            ));
        }

        Ok(actions)
    }

    /// Performs the one-time settlement of an operation whose final step
    /// succeeded: splits the available funds into output, refund and fee
    /// against the tick-aligned required input, emits the transfers and
    /// removes the entry.  If the amounts cannot be reconciled, nothing is
    /// transferred and nothing is mutated.
    fn settle(&mut self, operation_id: u64, quantity: u128, fee: u128) -> (r: Result<
        Vec<Action>,
        SwapError,
    >)
        requires
            old(self).wf(),
            old(self)@.ops.contains_key(operation_id),
            is_final_step(old(self)@.ops[operation_id]),
        ensures
            final(self).wf(),
            final(self)@.next_id == old(self)@.next_id,
            final(self)@.fee_recipient == old(self)@.fee_recipient,
            settle_ok(old(self)@.ops[operation_id], quantity as int, fee as int) ==> {
                &&& final(self)@.ops == old(self)@.ops.remove(operation_id)
                &&& (r matches Ok(actions) && actions_model(actions@) == settlement_actions(
                    old(self)@.ops[operation_id],
                    quantity as int,
                    fee as int,
                    old(self)@.fee_recipient,
                ))
            },
            !settle_ok(old(self)@.ops[operation_id], quantity as int, fee as int) ==> r == Err::<
                Vec<Action>,
                SwapError,
            >(SwapError::SettlementInvariantViolation) && final(self)@ == old(self)@,
    {
        let ghost old_op = old(self)@.ops[operation_id];

        let op = match self.store.get(operation_id) {
            Some(op) => op,
            None => unreached(),
        };

        proof {
            assert(op_wf(old_op));
            assert(op@ == old_op);
            assert(old_op.swap_steps[old_op.cursor.step_idx].min_tick >= 1);
        }

        let idx = op.cursor.step_idx;
        let available = op.cursor.current_balance.amount;
        let min_tick = op.swap_steps[idx].min_tick;

        let fee_total = match sum_fees(&op.results, fee) {
            Some(total) => total,
            None => {
                // The true fee total exceeds u128::MAX, hence certainly the
                // required input, so settlement cannot reconcile.
                return Err(SwapError::SettlementInvariantViolation);
            },
        };

        let record = match compute_settlement(available, quantity, min_tick, fee_total) {
            Ok(record) => record,
            Err(violation) => {
                return Err(violation);
            },
        };

        let initiator = op.sender_address.clone();
        let target_denom = op.swap_steps[idx].target_denom.clone();
        let refund_denom = op.cursor.current_balance.denom.clone();
        let fee_recipient = self.fee_recipient.clone();

        let _removed = self.store.remove(operation_id);

        let mut actions: Vec<Action> = Vec::new();

        if record.output > 0 {
            actions.push(
                Action::Transfer {
                    recipient: initiator.clone(),
                    amount: record.output,
                    denom: target_denom.clone(),
                },
            );
        }
        if record.refund > 0 {
            actions.push(
                Action::Transfer { recipient: initiator, amount: record.refund, denom: refund_denom },
            );
        }
        if record.fee > 0 {
            actions.push(
                Action::Transfer { recipient: fee_recipient, amount: record.fee, denom: target_denom },
            );
        }

        proof {
            assert(actions_model(actions@) =~= settlement_actions(
                old_op,
                quantity as int,
                fee as int,
                old(self)@.fee_recipient,
            ));
        }

        Ok(actions)
    }

}

/// Checks that every step names a usable tick size.
fn ticks_valid(steps: &Vec<SwapStep>) -> (b: bool)
    ensures
        b == forall|i: int|
            0 <= i < steps_model(steps@).len() ==> #[trigger] steps_model(steps@)[i].min_tick >= 1,
{
    let mut i: usize = 0;

    while i < steps.len()
        invariant
            0 <= i <= steps.len(),
            forall|j: int| 0 <= j < i ==> #[trigger] steps_model(steps@)[j].min_tick >= 1,
        decreases steps.len() - i,
    {
        if steps[i].min_tick == 0 {
            proof {
                assert(steps_model(steps@)[i as int].min_tick == 0);
            }
            return false;
        }
        i = i + 1;
    }

    true
}

} // verus!
