use swap_orchestrator::Action;
use swap_orchestrator::Coin;
use swap_orchestrator::StepOutcome;
use swap_orchestrator::SwapEngine;
use swap_orchestrator::SwapError;
use swap_orchestrator::SwapStep;

fn coin(amount: u128, denom: &str) -> Coin {
    Coin { amount, denom: denom.to_string() }
}

fn step(market_id: &str, target_denom: &str, min_tick: u128) -> SwapStep {
    SwapStep {
        market_id: market_id.to_string(),
        target_denom: target_denom.to_string(),
        is_buy: false,
        min_tick,
    }
}

fn success(quantity: u128, price: u128, fee: u128) -> StepOutcome {
    StepOutcome::Success { quantity, price, fee }
}

fn failure(reason: &str) -> StepOutcome {
    StepOutcome::Failure { reason: reason.to_string() }
}

/// The transfers among `actions`, as (recipient, amount, denom) triples.
fn transfers(actions: &[Action]) -> Vec<(String, u128, String)> {
    let mut out = Vec::new();
    for action in actions {
        if let Action::Transfer { recipient, amount, denom } = action {
            out.push((recipient.clone(), *amount, denom.clone()));
        }
    }
    out
}

#[test]
fn initiate_issues_first_step_with_whole_deposit() {
    let mut engine = SwapEngine::new("fee_recipient".to_string());
    let (id, actions) = engine
        .initiate("user_a".to_string(), coin(1000, "usdt"), vec![step("market1", "atom", 1)])
        .unwrap();

    assert_eq!(actions.len(), 1);
    match &actions[0] {
        Action::IssueStepCall { operation_id, step_index, step, input_amount } => {
            assert_eq!(*operation_id, id);
            assert_eq!(*step_index, 0);
            assert_eq!(step.market_id, "market1");
            assert_eq!(step.target_denom, "atom");
            assert_eq!(*input_amount, 1000);
        },
        other => panic!("expected a step call, got {:?}", other),
    }

    let op = engine.get_operation(id).unwrap();
    assert_eq!(op.input_funds.amount, 1000);
    assert_eq!(op.cursor.step_idx, 0);
    assert!(op.results.is_empty());
}

#[test]
fn initiate_rejects_malformed_requests() {
    let mut engine = SwapEngine::new("fee_recipient".to_string());

    let no_steps = engine.initiate("user_a".to_string(), coin(1000, "usdt"), vec![]);
    assert_eq!(no_steps.unwrap_err(), SwapError::InvalidRequest);

    let no_funds =
        engine.initiate("user_a".to_string(), coin(0, "usdt"), vec![step("market1", "atom", 1)]);
    assert_eq!(no_funds.unwrap_err(), SwapError::InvalidRequest);

    let zero_tick =
        engine.initiate("user_a".to_string(), coin(1000, "usdt"), vec![step("market1", "atom", 0)]);
    assert_eq!(zero_tick.unwrap_err(), SwapError::InvalidRequest);

    assert!(engine.get_operation(0).is_none());
}

#[test]
fn single_step_settlement_splits_deposit_exactly() {
    let mut engine = SwapEngine::new("fee_recipient".to_string());
    let (id, _) = engine
        .initiate("user_a".to_string(), coin(1000, "usdt"), vec![step("market1", "atom", 1)])
        .unwrap();

    let actions = engine.on_step_completed(id, 0, success(991, 7, 5)).unwrap();
    let transfers = transfers(&actions);

    // Output 991 - 5 to the initiator, refund 1000 - 991 = 9 to the
    // initiator, fee 5 to the fee recipient; together the whole deposit.
    assert_eq!(
        transfers,
        vec![
            ("user_a".to_string(), 986, "atom".to_string()),
            ("user_a".to_string(), 9, "usdt".to_string()),
            ("fee_recipient".to_string(), 5, "atom".to_string()),
        ]
    );
    assert_eq!(986 + 9 + 5, 1000u128);
    assert!(engine.get_operation(id).is_none());
}

#[test]
fn settlement_omits_zero_amount_transfers() {
    let mut engine = SwapEngine::new("fee_recipient".to_string());
    let (id, _) = engine
        .initiate("user_a".to_string(), coin(1000, "usdt"), vec![step("market1", "atom", 1)])
        .unwrap();

    // The fill consumes the whole deposit and no fee is charged, so only the
    // output transfer is emitted.
    let actions = engine.on_step_completed(id, 0, success(1000, 7, 0)).unwrap();
    assert_eq!(transfers(&actions), vec![("user_a".to_string(), 1000, "atom".to_string())]);
}

#[test]
fn unaligned_fill_settles_against_tick_ceiling() {
    let mut engine = SwapEngine::new("fee_recipient".to_string());
    let (id, _) = engine
        .initiate("user_a".to_string(), coin(1000000, "usdt"), vec![step("market1", "atom", 10)])
        .unwrap();

    // The reported fill 990554 is not tick-aligned; the market consumes the
    // ceiling 990560, so the refund is 1000000 - 990560 = 9440, never the
    // 9446 a raw-estimate refund would leak.
    let actions = engine.on_step_completed(id, 0, success(990554, 7, 0)).unwrap();
    assert_eq!(
        transfers(&actions),
        vec![
            ("user_a".to_string(), 990560, "atom".to_string()),
            ("user_a".to_string(), 9440, "usdt".to_string()),
        ]
    );
}

#[test]
fn concurrent_operations_are_isolated() {
    let mut engine = SwapEngine::new("fee_recipient".to_string());
    let (id_a, _) = engine
        .initiate("user_a".to_string(), coin(10000, "usdt"), vec![step("market1", "atom", 1)])
        .unwrap();
    // Before A's completion arrives, another request is admitted.
    let (id_b, _) = engine
        .initiate("user_b".to_string(), coin(1, "usdt"), vec![step("market2", "atom", 1)])
        .unwrap();

    assert_ne!(id_a, id_b);
    assert_eq!(engine.get_operation(id_a).unwrap().input_funds.amount, 10000);
    assert_eq!(engine.get_operation(id_a).unwrap().sender_address, "user_a");
    assert_eq!(engine.get_operation(id_b).unwrap().input_funds.amount, 1);
    assert_eq!(engine.get_operation(id_b).unwrap().sender_address, "user_b");

    // Completing B neither touches nor reveals A.
    engine.on_step_completed(id_b, 0, success(1, 1, 0)).unwrap();
    assert_eq!(engine.get_operation(id_a).unwrap().input_funds.amount, 10000);
    assert!(engine.get_operation(id_b).is_none());
}

#[test]
fn failed_step_refunds_and_cleans_up() {
    let mut engine = SwapEngine::new("fee_recipient".to_string());
    let (id, _) = engine
        .initiate("user_a".to_string(), coin(100000, "usdt"), vec![step("market1", "atom", 1)])
        .unwrap();

    let actions = engine.on_step_completed(id, 0, failure("slippage")).unwrap();

    // A single refund of the whole escrow, and the entry is gone.
    assert_eq!(transfers(&actions), vec![("user_a".to_string(), 100000, "usdt".to_string())]);
    assert!(engine.get_operation(id).is_none());

    // A later request starts entirely fresh.
    let (id_b, _) = engine
        .initiate("user_b".to_string(), coin(500, "usdt"), vec![step("market2", "atom", 1)])
        .unwrap();
    assert_ne!(id_b, id);
    assert_eq!(engine.get_operation(id_b).unwrap().input_funds.amount, 500);
}

#[test]
fn duplicate_completion_is_rejected() {
    let mut engine = SwapEngine::new("fee_recipient".to_string());
    let (id, _) = engine
        .initiate(
            "user_a".to_string(),
            coin(1000, "usdt"),
            vec![step("market1", "atom", 1), step("market2", "inj", 1)],
        )
        .unwrap();

    let first = engine.on_step_completed(id, 0, success(600, 7, 0)).unwrap();
    assert_eq!(first.len(), 1);
    assert_eq!(engine.get_operation(id).unwrap().cursor.step_idx, 1);

    // The same notification again: the cursor has moved on, so it is stale
    // and must not advance the operation twice or emit anything.
    let second = engine.on_step_completed(id, 0, success(600, 7, 0));
    assert_eq!(second.unwrap_err(), SwapError::StaleOrUnknownContinuation);
    assert_eq!(engine.get_operation(id).unwrap().cursor.step_idx, 1);
    assert_eq!(engine.get_operation(id).unwrap().results.len(), 1);
}

#[test]
fn completion_after_settlement_is_rejected() {
    let mut engine = SwapEngine::new("fee_recipient".to_string());
    let (id, _) = engine
        .initiate("user_a".to_string(), coin(1000, "usdt"), vec![step("market1", "atom", 1)])
        .unwrap();

    let settled = engine.on_step_completed(id, 0, success(991, 7, 0)).unwrap();
    assert_eq!(transfers(&settled).len(), 2);

    // Delivering the settlement's notification again finds no operation:
    // transfers can never be emitted twice.
    let replay = engine.on_step_completed(id, 0, success(991, 7, 0));
    assert_eq!(replay.unwrap_err(), SwapError::StaleOrUnknownContinuation);
}

#[test]
fn unknown_operation_is_rejected() {
    let mut engine = SwapEngine::new("fee_recipient".to_string());
    let r = engine.on_step_completed(42, 0, success(1, 1, 0));
    assert_eq!(r.unwrap_err(), SwapError::StaleOrUnknownContinuation);
}

#[test]
fn multi_step_operation_feeds_fill_into_next_step() {
    let mut engine = SwapEngine::new("fee_recipient".to_string());
    let (id, _) = engine
        .initiate(
            "user_a".to_string(),
            coin(1000, "usdt"),
            vec![step("market1", "atom", 1), step("market2", "inj", 5)],
        )
        .unwrap();

    let actions = engine.on_step_completed(id, 0, success(600, 7, 2)).unwrap();
    match &actions[0] {
        Action::IssueStepCall { operation_id, step_index, step, input_amount } => {
            assert_eq!(*operation_id, id);
            assert_eq!(*step_index, 1);
            assert_eq!(step.market_id, "market2");
            assert_eq!(*input_amount, 600);
        },
        other => panic!("expected a step call, got {:?}", other),
    }

    let op = engine.get_operation(id).unwrap();
    assert_eq!(op.cursor.step_idx, 1);
    assert_eq!(op.cursor.current_balance.amount, 600);
    assert_eq!(op.cursor.current_balance.denom, "atom");
    assert_eq!(op.results.len(), 1);
    assert_eq!(op.results[0].quantity, 600);
    assert_eq!(op.results[0].fee, 2);

    // Final step: 600 atom are available; the fill 593 is tick-aligned to
    // 595, fees are 2 + 3 = 5, so output 590, refund 5 — conservation of
    // the 600 that entered the step.
    let settled = engine.on_step_completed(id, 1, success(593, 7, 3)).unwrap();
    assert_eq!(
        transfers(&settled),
        vec![
            ("user_a".to_string(), 590, "inj".to_string()),
            ("user_a".to_string(), 5, "atom".to_string()),
            ("fee_recipient".to_string(), 5, "inj".to_string()),
        ]
    );
    assert!(engine.get_operation(id).is_none());
}

#[test]
fn failure_after_zero_fill_emits_no_refund() {
    let mut engine = SwapEngine::new("fee_recipient".to_string());
    let (id, _) = engine
        .initiate(
            "user_a".to_string(),
            coin(1000, "usdt"),
            vec![step("market1", "atom", 1), step("market2", "inj", 1)],
        )
        .unwrap();

    // The first step fills nothing, so nothing is left to refund when the
    // second step fails; the entry is still cleaned up.
    engine.on_step_completed(id, 0, success(0, 7, 0)).unwrap();
    let actions = engine.on_step_completed(id, 1, failure("halted")).unwrap();
    assert!(transfers(&actions).is_empty());
    assert!(engine.get_operation(id).is_none());
}

#[test]
fn overfull_fill_is_a_settlement_violation() {
    let mut engine = SwapEngine::new("fee_recipient".to_string());
    let (id, _) = engine
        .initiate("user_a".to_string(), coin(1000, "usdt"), vec![step("market1", "atom", 1)])
        .unwrap();

    // A reported fill above the escrowed funds cannot be reconciled; no
    // transfer is made and the operation is left untouched.
    let r = engine.on_step_completed(id, 0, success(1001, 7, 0));
    assert_eq!(r.unwrap_err(), SwapError::SettlementInvariantViolation);
    assert_eq!(engine.get_operation(id).unwrap().cursor.step_idx, 0);
}
