//! The settlement calculator: a pure function from the funds available to
//! the final step, the reported fill quantity, the market's tick size and the
//! accumulated fees to the exact output, refund and fee amounts.
//!
//! The single source of truth for "how much was consumed" is the tick-aligned
//! required input.  The refund is computed against it — never against the raw
//! estimate — so the escrowed amount is split exactly, with no residual.

use crate::math::spec_round_up_to_min_tick;
use crate::math::round_up_to_min_tick;
use crate::types::results_model;
use crate::types::ResultModel;
use crate::types::SwapError;
use crate::types::SwapResults;
use vstd::prelude::*;

verus! {

/// The one-time split of an operation's available funds, computed at
/// settlement and applied exactly once.
#[derive(Debug)]
pub struct SettlementRecord {
    /// The tick-aligned amount the final market call actually consumes.
    pub required_input: u128,
    /// What the initiator receives of the proceeds: `required_input - fee`.
    pub output: u128,
    /// What the initiator gets back of the escrow: `available - required_input`.
    pub refund: u128,
    /// What the fee recipient receives.
    pub fee: u128,
}

/// The tick-aligned amount the final step consumes.
pub open spec fn spec_required_input(quantity: int, min_tick: int) -> int {
    spec_round_up_to_min_tick(quantity, min_tick)
}

/// Settlement succeeds exactly when the tick-aligned requirement fits in the
/// available funds and the fee does not exceed the proceeds.
pub open spec fn spec_settlement_ok(
    available: int,
    quantity: int,
    min_tick: int,
    fee_total: int,
) -> bool {
    &&& spec_required_input(quantity, min_tick) <= available
    &&& fee_total <= spec_required_input(quantity, min_tick)
}

/// The output leg of a successful settlement.
pub open spec fn spec_settlement_output(quantity: int, min_tick: int, fee_total: int) -> int {
    spec_required_input(quantity, min_tick) - fee_total
}

/// The refund leg of a successful settlement.
pub open spec fn spec_settlement_refund(available: int, quantity: int, min_tick: int) -> int {
    available - spec_required_input(quantity, min_tick)
}

/// Computes the final split of `available` escrowed funds given the fill
/// quantity reported for the last step.  Returns the record exactly when the
/// tick-aligned required input fits in `available` and the fee fits in the
/// proceeds; any other situation is a settlement invariant violation, and no
/// transfer may be made from it.
pub fn compute_settlement(available: u128, quantity: u128, min_tick: u128, fee_total: u128) -> (r:
    Result<SettlementRecord, SwapError>)
    requires
        min_tick >= 1,
    ensures
        r is Ok <==> spec_settlement_ok(
            available as int,
            quantity as int,
            min_tick as int,
            fee_total as int,
        ),
        r matches Ok(rec) ==> {
            &&& rec.required_input == spec_required_input(quantity as int, min_tick as int)
            &&& rec.output == spec_settlement_output(
                quantity as int,
                min_tick as int,
                fee_total as int,
            )
            &&& rec.refund == spec_settlement_refund(
                available as int,
                quantity as int,
                min_tick as int,
            )
            &&& rec.fee == fee_total
            &&& rec.output + rec.refund + rec.fee == available
        },
        r is Err ==> r == Err::<SettlementRecord, SwapError>(
            SwapError::SettlementInvariantViolation,
        ),
{
    // Decide whether the tick-aligned requirement even fits in u128; if it
    // does not, it certainly exceeds `available`.
    let aligned_fits: bool = if quantity < min_tick {
        true
    } else {
        let remainder: u128 = quantity % min_tick;
        remainder == 0 || min_tick <= u128::MAX - (quantity - remainder)
    };

    if !aligned_fits {
        return Err(SwapError::SettlementInvariantViolation);
    }

    let required_input = round_up_to_min_tick(quantity, min_tick);

    if required_input > available {
        return Err(SwapError::SettlementInvariantViolation);
    }

    if fee_total > required_input {
        return Err(SwapError::SettlementInvariantViolation);
    }

    Ok(SettlementRecord {
        required_input,
        output: required_input - fee_total,
        refund: available - required_input,
        fee: fee_total,
    })
}

/// Conservation: a successful settlement splits the available funds exactly —
/// output, refund and fee always sum back to the amount that was escrowed for
/// the final step, with no residual retained or leaked.
pub proof fn lemma_settlement_conservation(
    available: int,
    quantity: int,
    min_tick: int,
    fee_total: int,
)
    requires
        min_tick >= 1,
        quantity >= 0,
        fee_total >= 0,
        spec_settlement_ok(available, quantity, min_tick, fee_total),
    ensures
        spec_settlement_output(quantity, min_tick, fee_total) + spec_settlement_refund(
            available,
            quantity,
            min_tick,
        ) + fee_total == available,
{
}

/// The fees reported across a sequence of step results, as an unbounded
/// integer.
pub open spec fn spec_fee_total(results: Seq<ResultModel>) -> int
    decreases results.len(),
{
    if results.len() == 0 {
        0
    } else {
        spec_fee_total(results.drop_last()) + results.last().fee
    }
}

/// A prefix of a result sequence never carries more fees than the whole.
proof fn lemma_fee_total_prefix(results: Seq<ResultModel>, n: int)
    requires
        0 <= n <= results.len(),
        forall|i: int| 0 <= i < results.len() ==> #[trigger] results[i].fee >= 0,
    ensures
        spec_fee_total(results.take(n)) <= spec_fee_total(results),
    decreases results.len() - n,
{
    if n < results.len() {
        lemma_fee_total_prefix(results, n + 1);
        assert(results.take(n + 1).drop_last() =~= results.take(n));
        assert(results.take(n + 1).last() == results[n]);
    } else {
        assert(results.take(n) =~= results);
    }
}

/// Sums the fees of the recorded results and of the final step.  Returns
/// `None` exactly when the mathematical total does not fit in `u128`.
pub fn sum_fees(results: &Vec<SwapResults>, last_fee: u128) -> (r: Option<u128>)
    ensures
        match r {
            Some(total) => total == spec_fee_total(results_model(results@)) + last_fee,
            None => spec_fee_total(results_model(results@)) + last_fee > u128::MAX,
        },
{
    let ghost all = results_model(results@);
    let mut total: u128 = 0;
    let mut i: usize = 0;

    proof {
        assert(all.take(0) =~= Seq::<ResultModel>::empty());
    }

    while i < results.len()
        invariant
            0 <= i <= results.len(),
            all == results_model(results@),
            total == spec_fee_total(all.take(i as int)),
        decreases results.len() - i,
    {
        let fee = results[i].fee;

        proof {
            assert(all.take(i + 1).drop_last() =~= all.take(i as int));
            assert(all.take(i + 1).last() == all[i as int]);
            assert(all[i as int].fee == fee as int);
        }

        total = match total.checked_add(fee) {
            Some(t) => t,
            None => {
                proof {
                    lemma_fee_total_prefix(all, i + 1);
                }
                return None;
            },
        };
        i = i + 1;
    }

    proof {
        assert(all.take(results@.len() as int) =~= all);
    }

    total.checked_add(last_fee)
}

} // verus!
