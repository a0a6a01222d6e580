use tari_wallet_lib::amount::{Amount, TransferError};
use tari_wallet_lib::output::{
    get_confidential_balance, get_confidential_outputs_from_vault, resolve_output_masks,
    ConfidentialOutputModel, MaskDerivation, OutputStatus, UnblindedOutput,
};
use tari_wallet_lib::selection::{get_confidential_amount_from_vault, ConfidentialTransferInputSelection};
use tari_wallet_lib::statement::{
    create_change_statement, create_confidential_proof_statement, next_key, KeyDerivationSchedule,
    MaskSource,
};
use tari_wallet_lib::transfer::{
    plan_confidential_transfer, resolved_inputs_for_transfer, ConfidentialTransferParams,
    InputsToSpend,
};
use tari_wallet_lib::types::{
    Commitment, ComponentAddress, ConfidentialOutput, PublicKey, ResourceAddress, VaultId,
};

fn output(tag: u8, value: Option<u64>) -> UnblindedOutput {
    UnblindedOutput {
        output: ConfidentialOutput {
            commitment: Commitment([tag; 32]),
            stealth_public_nonce: PublicKey([tag.wrapping_add(100); 32]),
            encrypted_data: vec![tag, tag, tag],
            minimum_value_promise: 0,
        },
        value,
    }
}

fn vault_10_30_5() -> Vec<UnblindedOutput> {
    vec![output(1, Some(10)), output(2, Some(30)), output(3, Some(5))]
}

fn account() -> ComponentAddress {
    ComponentAddress([7; 32])
}

fn vault_id() -> VaultId {
    VaultId([8; 32])
}

fn decoded(outputs: Vec<UnblindedOutput>) -> Vec<ConfidentialOutputModel> {
    get_confidential_outputs_from_vault(account(), vault_id(), Some(outputs)).unwrap()
}

fn values(models: &[ConfidentialOutputModel]) -> Vec<u64> {
    models.iter().map(|m| m.value).collect()
}

fn params(amount: i64) -> ConfidentialTransferParams {
    ConfidentialTransferParams {
        source_public_key: PublicKey([1; 32]),
        source_account_address: account(),
        source_vault_id: vault_id(),
        destination_public_key: PublicKey([2; 32]),
        destination_account_address: ComponentAddress([3; 32]),
        resource_address: ResourceAddress([4; 32]),
        resource_view_key: Some(PublicKey([5; 32])),
        create_destination_account: false,
        amount,
        fee: 1,
        proof_from_resource: None,
        output_to_revealed: false,
        input_selection: ConfidentialTransferInputSelection::ConfidentialOnly,
    }
}

#[test]
fn decoding_sorts_ascending_by_value() {
    let models = decoded(vault_10_30_5());
    assert_eq!(values(&models), vec![5, 10, 30]);
    assert!(models.iter().all(|m| m.status == OutputStatus::Unspent));
    assert_eq!(models[0].commitment, Commitment([3; 32]));
    assert_eq!(models[0].account_address, account());
    assert_eq!(models[0].vault_address, vault_id());
    assert_eq!(models[0].sender_public_nonce, Some(PublicKey([103; 32])));
    assert_eq!(models[0].encrypted_data, vec![3, 3, 3]);
    assert_eq!(models[0].encryption_secret_key_index, 0);
    assert_eq!(models[0].locked_by_proof, None);
}

#[test]
fn decoding_keeps_vault_order_for_equal_values() {
    let models = decoded(vec![output(1, Some(4)), output(2, Some(4)), output(3, Some(1))]);
    assert_eq!(values(&models), vec![1, 4, 4]);
    assert_eq!(models[1].commitment, Commitment([1; 32]));
    assert_eq!(models[2].commitment, Commitment([2; 32]));
}

#[test]
fn failed_unblinding_is_invalid_with_value_zero() {
    let models = decoded(vec![output(1, Some(10)), output(9, None)]);
    assert_eq!(models.len(), 2);
    assert_eq!(models[0].status, OutputStatus::Invalid);
    assert_eq!(models[0].value, 0);
    assert_eq!(models[1].status, OutputStatus::Unspent);
    for m in &models {
        if m.status == OutputStatus::Invalid {
            assert_eq!(m.value, 0);
        }
    }
}

#[test]
fn vault_without_confidential_bucket_is_refused() {
    let r = get_confidential_outputs_from_vault(account(), vault_id(), None);
    assert_eq!(r.unwrap_err(), TransferError::NoConfidentialResource);
}

#[test]
fn empty_bucket_decodes_to_nothing() {
    assert!(decoded(vec![]).is_empty());
}

#[test]
fn target_25_picks_30_with_change_5() {
    let (selected, total) = get_confidential_amount_from_vault(decoded(vault_10_30_5()), Amount(25)).unwrap();
    assert_eq!(values(&selected), vec![30]);
    assert_eq!(total, 30);
    let mut schedule = KeyDerivationSchedule::new(0);
    let plan = plan_confidential_transfer(&params(25), Some(vault_10_30_5()), &mut schedule).unwrap();
    let change = plan.change_statement.unwrap();
    assert_eq!(change.amount, Amount(5));
    assert_eq!(change.recipient_public_key, PublicKey([1; 32]));
    assert_eq!(change.reveal_amount, Amount(0));
}

#[test]
fn target_40_picks_30_and_10_without_change() {
    let (selected, total) = get_confidential_amount_from_vault(decoded(vault_10_30_5()), Amount(40)).unwrap();
    assert_eq!(values(&selected), vec![30, 10]);
    assert_eq!(total, 40);
    let mut schedule = KeyDerivationSchedule::new(0);
    let plan = plan_confidential_transfer(&params(40), Some(vault_10_30_5()), &mut schedule).unwrap();
    assert!(plan.change_statement.is_none());
    assert_eq!(schedule.next_index, 1);
}

#[test]
fn target_100_takes_all_three_and_is_insufficient() {
    let (selected, total) = get_confidential_amount_from_vault(decoded(vault_10_30_5()), Amount(100)).unwrap();
    assert_eq!(values(&selected), vec![30, 10, 5]);
    assert_eq!(total, 45);
    let mut schedule = KeyDerivationSchedule::new(0);
    let r = plan_confidential_transfer(&params(100), Some(vault_10_30_5()), &mut schedule);
    assert_eq!(r.unwrap_err(), TransferError::InsufficientFunds);
}

#[test]
fn invalid_candidate_is_never_selected() {
    let mut vault = vault_10_30_5();
    vault.push(output(9, None));
    for target in [0i64, 1, 25, 45, 46, 100, i64::MAX] {
        let (selected, _) = get_confidential_amount_from_vault(decoded(vault.clone()), Amount(target)).unwrap();
        assert!(selected.iter().all(|m| m.status == OutputStatus::Unspent));
        assert!(selected.iter().all(|m| m.commitment != Commitment([9; 32])));
    }
}

#[test]
fn locked_candidate_is_skipped() {
    let mut models = decoded(vault_10_30_5());
    models[2].status = OutputStatus::Locked;
    let (selected, total) = get_confidential_amount_from_vault(models, Amount(25)).unwrap();
    assert_eq!(values(&selected), vec![10, 5]);
    assert_eq!(total, 15);
}

#[test]
fn selection_covers_target_or_takes_everything() {
    for target in 0..60i64 {
        let all: u128 = 45;
        let (_, total) = get_confidential_amount_from_vault(decoded(vault_10_30_5()), Amount(target)).unwrap();
        assert!(total >= std::cmp::min(target as u128, all));
    }
}

#[test]
fn selection_is_deterministic() {
    let a = get_confidential_amount_from_vault(decoded(vault_10_30_5()), Amount(25)).unwrap();
    let b = get_confidential_amount_from_vault(decoded(vault_10_30_5()), Amount(25)).unwrap();
    assert_eq!(a, b);
}

#[test]
fn zero_target_selects_nothing() {
    let (selected, total) = get_confidential_amount_from_vault(decoded(vault_10_30_5()), Amount(0)).unwrap();
    assert!(selected.is_empty());
    assert_eq!(total, 0);
}

#[test]
fn negative_target_is_invalid_amount() {
    let r = get_confidential_amount_from_vault(decoded(vault_10_30_5()), Amount(-1));
    assert_eq!(r.unwrap_err(), TransferError::InvalidAmount);
}

#[test]
fn other_strategies_are_unsupported() {
    for strategy in [
        ConfidentialTransferInputSelection::RevealedOnly,
        ConfidentialTransferInputSelection::PreferRevealed,
        ConfidentialTransferInputSelection::PreferConfidential,
    ] {
        let r = resolved_inputs_for_transfer(account(), vault_id(), Some(vault_10_30_5()), Amount(10), strategy);
        assert_eq!(r.unwrap_err(), TransferError::UnsupportedStrategy);
    }
}

#[test]
fn resolved_inputs_hold_the_selection() {
    let inputs = resolved_inputs_for_transfer(
        account(),
        vault_id(),
        Some(vault_10_30_5()),
        Amount(12),
        ConfidentialTransferInputSelection::ConfidentialOnly,
    )
    .unwrap();
    assert_eq!(values(&inputs.confidential), vec![30]);
    assert_eq!(inputs.proof_id, 0);
    assert_eq!(inputs.revealed, Amount(0));
    assert_eq!(inputs.total_confidential_amount(), Ok(Amount(30)));
    assert_eq!(inputs.total_amount(), Ok(Amount(30)));
}

#[test]
fn resolved_inputs_without_bucket_fail() {
    let r = resolved_inputs_for_transfer(
        account(),
        vault_id(),
        None,
        Amount(12),
        ConfidentialTransferInputSelection::ConfidentialOnly,
    );
    assert_eq!(r.unwrap_err(), TransferError::NoConfidentialResource);
}

#[test]
fn input_totals_overflow_is_reported() {
    let mut models = decoded(vec![output(1, Some(u64::MAX)), output(2, Some(1))]);
    models.reverse();
    let inputs = InputsToSpend { confidential: models, proof_id: 0, revealed: Amount(3) };
    assert_eq!(inputs.total_confidential_amount(), Err(TransferError::AmountOverflow));
    let small = InputsToSpend { confidential: decoded(vec![output(1, Some(i64::MAX as u64))]), proof_id: 0, revealed: Amount(1) };
    assert_eq!(small.total_confidential_amount(), Ok(Amount(i64::MAX)));
    assert_eq!(small.total_amount(), Err(TransferError::AmountOverflow));
    let with_revealed = InputsToSpend { confidential: decoded(vec![output(1, Some(7))]), proof_id: 0, revealed: Amount(3) };
    assert_eq!(with_revealed.total_amount(), Ok(Amount(10)));
}

#[test]
fn statement_for_zero_amount_has_zero_mask() {
    let mut schedule = KeyDerivationSchedule::new(4);
    let s = create_confidential_proof_statement(&mut schedule, PublicKey([2; 32]), Amount(0), Amount(9), None).unwrap();
    assert_eq!(s.mask, MaskSource::Zero);
    assert_eq!(s.amount, Amount(0));
    assert_eq!(s.reveal_amount, Amount(9));
    assert_eq!(s.minimum_value_promise, 0);
    assert_eq!(schedule.next_index, 4);
}

#[test]
fn statement_for_positive_amount_takes_next_key() {
    let mut schedule = KeyDerivationSchedule::new(4);
    let s = create_confidential_proof_statement(&mut schedule, PublicKey([2; 32]), Amount(3), Amount(0), Some(PublicKey([5; 32]))).unwrap();
    assert_eq!(s.mask, MaskSource::Derived { key_index: 4 });
    assert_eq!(s.recipient_public_key, PublicKey([2; 32]));
    assert_eq!(s.resource_view_key, Some(PublicKey([5; 32])));
    assert_eq!(schedule.next_index, 5);
}

#[test]
fn statement_for_negative_amount_is_invalid() {
    let mut schedule = KeyDerivationSchedule::new(4);
    let r = create_confidential_proof_statement(&mut schedule, PublicKey([2; 32]), Amount(-3), Amount(0), None);
    assert_eq!(r.unwrap_err(), TransferError::InvalidAmount);
    assert_eq!(schedule.next_index, 4);
}

#[test]
fn exhausted_schedule_is_reported() {
    let mut schedule = KeyDerivationSchedule::new(u64::MAX);
    assert_eq!(next_key(&mut schedule), Err(TransferError::KeyScheduleExhausted));
    let r = create_confidential_proof_statement(&mut schedule, PublicKey([2; 32]), Amount(3), Amount(0), None);
    assert_eq!(r.unwrap_err(), TransferError::KeyScheduleExhausted);
    let mut fresh = KeyDerivationSchedule::new(0);
    assert_eq!(next_key(&mut fresh), Ok(0));
    assert_eq!(next_key(&mut fresh), Ok(1));
}

#[test]
fn change_statement_only_for_positive_difference() {
    let mut schedule = KeyDerivationSchedule::new(0);
    assert_eq!(create_change_statement(&mut schedule, PublicKey([1; 32]), Amount(40), Amount(40), None), Ok(None));
    assert_eq!(schedule.next_index, 0);
    let change = create_change_statement(&mut schedule, PublicKey([1; 32]), Amount(45), Amount(40), None).unwrap().unwrap();
    assert_eq!(change.amount, Amount(5));
    assert_eq!(change.mask, MaskSource::Derived { key_index: 0 });
    assert_eq!(
        create_change_statement(&mut schedule, PublicKey([1; 32]), Amount(39), Amount(40), None),
        Err(TransferError::InsufficientFunds)
    );
}

#[test]
fn plan_for_25_uses_two_keys() {
    let mut schedule = KeyDerivationSchedule::new(10);
    let plan = plan_confidential_transfer(&params(25), Some(vault_10_30_5()), &mut schedule).unwrap();
    assert_eq!(values(&plan.inputs.confidential), vec![30]);
    assert_eq!(plan.output_statement.amount, Amount(25));
    assert_eq!(plan.output_statement.reveal_amount, Amount(0));
    assert_eq!(plan.output_statement.mask, MaskSource::Derived { key_index: 10 });
    assert_eq!(plan.output_statement.recipient_public_key, PublicKey([2; 32]));
    assert_eq!(plan.output_statement.resource_view_key, Some(PublicKey([5; 32])));
    assert_eq!(plan.change_statement.unwrap().mask, MaskSource::Derived { key_index: 11 });
    assert_eq!(schedule.next_index, 12);
}

#[test]
fn plan_to_revealed_output_has_zero_confidential_share() {
    let mut p = params(25);
    p.output_to_revealed = true;
    let mut schedule = KeyDerivationSchedule::new(0);
    let plan = plan_confidential_transfer(&p, Some(vault_10_30_5()), &mut schedule).unwrap();
    assert_eq!(plan.output_statement.amount, Amount(0));
    assert_eq!(plan.output_statement.reveal_amount, Amount(25));
    assert_eq!(plan.output_statement.mask, MaskSource::Zero);
    assert_eq!(plan.change_statement.unwrap().amount, Amount(5));
    assert_eq!(schedule.next_index, 1);
}

#[test]
fn plan_errors_come_from_the_first_failing_stage() {
    let mut schedule = KeyDerivationSchedule::new(0);
    let mut p = params(-5);
    p.input_selection = ConfidentialTransferInputSelection::PreferRevealed;
    assert_eq!(plan_confidential_transfer(&p, None, &mut schedule).unwrap_err(), TransferError::UnsupportedStrategy);
    assert_eq!(plan_confidential_transfer(&params(-5), None, &mut schedule).unwrap_err(), TransferError::InvalidAmount);
    assert_eq!(plan_confidential_transfer(&params(5), None, &mut schedule).unwrap_err(), TransferError::NoConfidentialResource);
    let mut exhausted = KeyDerivationSchedule::new(u64::MAX);
    assert_eq!(
        plan_confidential_transfer(&params(5), Some(vault_10_30_5()), &mut exhausted).unwrap_err(),
        TransferError::KeyScheduleExhausted
    );
    let mut last = KeyDerivationSchedule::new(u64::MAX - 1);
    assert_eq!(
        plan_confidential_transfer(&params(25), Some(vault_10_30_5()), &mut last).unwrap_err(),
        TransferError::KeyScheduleExhausted
    );
    let mut last_exact = KeyDerivationSchedule::new(u64::MAX - 1);
    assert!(plan_confidential_transfer(&params(40), Some(vault_10_30_5()), &mut last_exact).is_ok());
    let huge = vec![output(1, Some(u64::MAX))];
    assert_eq!(
        plan_confidential_transfer(&params(5), Some(huge), &mut schedule).unwrap_err(),
        TransferError::AmountOverflow
    );
}

#[test]
fn amount_split_adds_up() {
    for flag in [false, true] {
        for amount in [0i64, 1, 25, i64::MAX, -3] {
            let mut p = params(amount);
            p.output_to_revealed = flag;
            let c = p.confidential_amount();
            let r = p.revealed_amount();
            assert_eq!(c.0 + r.0, amount);
            if flag {
                assert_eq!((c, r), (Amount(0), Amount(amount)));
            } else {
                assert_eq!((c, r), (Amount(amount), Amount(0)));
            }
        }
    }
}

#[test]
fn balance_counts_only_recovered_values() {
    let mut vault = vault_10_30_5();
    vault.push(output(9, None));
    assert_eq!(get_confidential_balance(&Some(vault)), Ok(45));
    assert_eq!(get_confidential_balance(&Some(vec![])), Ok(0));
    assert_eq!(get_confidential_balance(&None), Err(TransferError::NoConfidentialResource));
    let huge = vec![output(1, Some(u64::MAX)), output(2, Some(1))];
    assert_eq!(get_confidential_balance(&Some(huge)), Err(TransferError::AmountOverflow));
}

#[test]
fn masks_come_from_the_sender_nonce_when_present() {
    let mut models = decoded(vec![output(1, Some(10)), output(2, Some(3))]);
    models[1].sender_public_nonce = None;
    models[1].encryption_secret_key_index = 6;
    let d = resolve_output_masks(&models);
    assert_eq!(
        d,
        vec![
            MaskDerivation::SharedWithSender { key_index: 0, sender_public_nonce: PublicKey([102; 32]) },
            MaskDerivation::Local { key_index: 6 },
        ]
    );
}
