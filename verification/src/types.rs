//! Core data types of the swap engine, together with the mathematical models
//! that the contracts are stated over.
//!
//! Every executable type has a ghost model (`View`): strings become
//! `Seq<char>`, amounts become `int`, vectors become `Seq` of models.  All
//! contracts in this crate speak of those models.

use vstd::prelude::*;

verus! {

/// An amount of a single token denomination.
#[derive(Debug)]
pub struct Coin {
    pub amount: u128,
    pub denom: String,
}

/// Ghost model of a [`Coin`].
pub ghost struct CoinModel {
    pub amount: int,
    pub denom: Seq<char>,
}

impl View for Coin {
    type V = CoinModel;

    open spec fn view(&self) -> CoinModel {
        CoinModel { amount: self.amount as int, denom: self.denom@ }
    }
}

impl Coin {
    /// An independent copy with the same amount and denomination.
    pub fn duplicate(&self) -> (r: Coin)
        ensures
            r@ == self@,
    {
        Coin { amount: self.amount, denom: self.denom.clone() }
    }
}

/// One step of a swap route: an external call to a market that converts the
/// operation's running balance into `target_denom`.
///
/// `min_tick` is the market's minimum quantity increment; any amount the
/// market consumes is a multiple of it, so the engine rounds required inputs
/// up to it before computing refunds.
#[derive(Debug)]
pub struct SwapStep {
    pub market_id: String,
    pub target_denom: String,
    pub is_buy: bool,
    pub min_tick: u128,
}

/// Ghost model of a [`SwapStep`].
pub ghost struct StepModel {
    pub market_id: Seq<char>,
    pub target_denom: Seq<char>,
    pub is_buy: bool,
    pub min_tick: int,
}

impl View for SwapStep {
    type V = StepModel;

    open spec fn view(&self) -> StepModel {
        StepModel {
            market_id: self.market_id@,
            target_denom: self.target_denom@,
            is_buy: self.is_buy,
            min_tick: self.min_tick as int,
        }
    }
}

impl SwapStep {
    /// An independent copy describing the same step.
    pub fn duplicate(&self) -> (r: SwapStep)
        ensures
            r@ == self@,
    {
        SwapStep {
            market_id: self.market_id.clone(),
            target_denom: self.target_denom.clone(),
            is_buy: self.is_buy,
            min_tick: self.min_tick,
        }
    }
}

/// Ghost models of a sequence of steps, in order.
pub open spec fn steps_model(steps: Seq<SwapStep>) -> Seq<StepModel> {
    Seq::new(steps.len(), |i: int| steps[i]@)
}

/// Ghost models of a sequence of step results, in order.
pub open spec fn results_model(results: Seq<SwapResults>) -> Seq<ResultModel> {
    Seq::new(results.len(), |i: int| results[i]@)
}

/// The recorded outcome of one successfully completed step.
#[derive(Debug)]
pub struct SwapResults {
    pub market_id: String,
    pub quantity: u128,
    pub price: u128,
    pub fee: u128,
}

/// Ghost model of a [`SwapResults`].
pub ghost struct ResultModel {
    pub market_id: Seq<char>,
    pub quantity: int,
    pub price: int,
    pub fee: int,
}

impl View for SwapResults {
    type V = ResultModel;

    open spec fn view(&self) -> ResultModel {
        ResultModel {
            market_id: self.market_id@,
            quantity: self.quantity as int,
            price: self.price as int,
            fee: self.fee as int,
        }
    }
}

/// Lifecycle of a swap operation.  `Settling`, `Completed` and `Failed` are
/// transient: an operation reaches them within the very call that settles or
/// aborts it, and its store entry is removed before that call returns, so
/// every stored operation is `Active`.
#[derive(Clone, Copy, Debug, PartialEq, Eq, Structural)]
pub enum OperationStatus {
    Active,
    Settling,
    Completed,
    Failed,
}

/// The per-operation cursor: which step is pending, and the funds currently
/// available to feed into it.
#[derive(Debug)]
pub struct CurrentSwapStep {
    /// Index of the step whose external call is pending.
    pub step_idx: usize,
    /// The amount available to the pending step: the escrowed deposit before
    /// the first step, and afterwards the fill of the last completed step.
    pub current_balance: Coin,
}

/// Ghost model of a [`CurrentSwapStep`].
pub ghost struct CursorModel {
    pub step_idx: int,
    pub current_balance: CoinModel,
}

impl View for CurrentSwapStep {
    type V = CursorModel;

    open spec fn view(&self) -> CursorModel {
        CursorModel { step_idx: self.step_idx as int, current_balance: self.current_balance@ }
    }
}

/// One in-flight swap operation: the immutable request data, the cursor and
/// the results accumulated so far.
#[derive(Debug)]
pub struct CurrentSwapOperation {
    /// The caller that escrowed the funds; settlement transfers go to it.
    pub sender_address: String,
    /// The ordered route; immutable after creation.
    pub swap_steps: Vec<SwapStep>,
    /// The escrowed funds; never mutated, only consumed at settlement.
    pub input_funds: Coin,
    pub status: OperationStatus,
    pub cursor: CurrentSwapStep,
    /// Outcomes of completed steps, append-only; its length always equals
    /// `cursor.step_idx` while the operation is active.
    pub results: Vec<SwapResults>,
}

/// Ghost model of a [`CurrentSwapOperation`].
pub ghost struct OpModel {
    pub sender_address: Seq<char>,
    pub swap_steps: Seq<StepModel>,
    pub input_funds: CoinModel,
    pub status: OperationStatus,
    pub cursor: CursorModel,
    pub results: Seq<ResultModel>,
}

impl View for CurrentSwapOperation {
    type V = OpModel;

    open spec fn view(&self) -> OpModel {
        OpModel {
            sender_address: self.sender_address@,
            swap_steps: steps_model(self.swap_steps@),
            input_funds: self.input_funds@,
            status: self.status,
            cursor: self.cursor@,
            results: results_model(self.results@),
        }
    }
}

/// Well-formedness of a stored operation: a non-empty route whose ticks are
/// usable, a positive deposit, an in-range cursor, one recorded result per
/// completed step, and — before any step has completed — the whole escrowed
/// deposit as the running balance.
pub open spec fn op_wf(op: OpModel) -> bool {
    &&& op.swap_steps.len() >= 1
    &&& forall|i: int| 0 <= i < op.swap_steps.len() ==> #[trigger] op.swap_steps[i].min_tick >= 1
    &&& op.input_funds.amount >= 1
    &&& op.status == OperationStatus::Active
    &&& 0 <= op.cursor.step_idx < op.swap_steps.len()
    &&& op.results.len() == op.cursor.step_idx
    &&& op.cursor.step_idx == 0 ==> op.cursor.current_balance == op.input_funds
}

/// The outcome the host reports for one issued step call.
#[derive(Debug)]
pub enum StepOutcome {
    Success { quantity: u128, price: u128, fee: u128 },
    Failure { reason: String },
}

/// Ghost model of a [`StepOutcome`].
pub ghost enum OutcomeModel {
    Success { quantity: int, price: int, fee: int },
    Failure { reason: Seq<char> },
}

impl View for StepOutcome {
    type V = OutcomeModel;

    open spec fn view(&self) -> OutcomeModel {
        match self {
            StepOutcome::Success { quantity, price, fee } => OutcomeModel::Success {
                quantity: *quantity as int,
                price: *price as int,
                fee: *fee as int,
            },
            StepOutcome::Failure { reason } => OutcomeModel::Failure { reason: reason@ },
        }
    }
}

/// An effect the engine asks the host to perform.  The engine never performs
/// external work itself; it returns these and continues when the host reports
/// back through `on_step_completed`.
#[derive(Debug)]
pub enum Action {
    /// Fire the external market call for one step.  The host must eventually
    /// deliver exactly one completion notification carrying the same
    /// `operation_id` and `step_index`.
    IssueStepCall { operation_id: u64, step_index: usize, step: SwapStep, input_amount: u128 },
    /// Send `amount` of `denom` to `recipient`.
    Transfer { recipient: String, amount: u128, denom: String },
}

/// Ghost model of an [`Action`].
pub ghost enum ActionModel {
    IssueStepCall { operation_id: u64, step_index: int, step: StepModel, input_amount: int },
    Transfer { recipient: Seq<char>, amount: int, denom: Seq<char> },
}

impl View for Action {
    type V = ActionModel;

    open spec fn view(&self) -> ActionModel {
        match self {
            Action::IssueStepCall { operation_id, step_index, step, input_amount } =>
                ActionModel::IssueStepCall {
                    operation_id: *operation_id,
                    step_index: *step_index as int,
                    step: step@,
                    input_amount: *input_amount as int,
                },
            Action::Transfer { recipient, amount, denom } => ActionModel::Transfer {
                recipient: recipient@,
                amount: *amount as int,
                denom: denom@,
            },
        }
    }
}

/// Ghost models of a vector of actions, in order.
pub open spec fn actions_model(actions: Seq<Action>) -> Seq<ActionModel> {
    Seq::new(actions.len(), |i: int| actions[i]@)
}

/// Everything that can go wrong at the engine's boundary.
#[derive(Clone, Copy, Debug, PartialEq, Eq, Structural)]
pub enum SwapError {
    /// Malformed input to `initiate`: rejected synchronously, no state is
    /// created and no funds move.
    InvalidRequest,
    /// A store entry was created under an identifier that already exists.
    DuplicateId,
    /// A completion notification named an operation or step that does not
    /// match stored state; it is dropped without mutating anything.
    StaleOrUnknownContinuation,
    /// The settlement amounts could not be reconciled with the escrowed
    /// funds; the operation must not proceed with any transfer.
    SettlementInvariantViolation,
}

} // verus!
