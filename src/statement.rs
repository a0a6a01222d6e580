use vstd::prelude::*;
use crate::amount::{Amount, TransferError};
use crate::types::PublicKey;

verus! {

/// The caller-owned schedule from which fresh mask keys are derived: each
/// call of `next_key` hands out the next unused derivation index.
#[derive(Clone, Copy, Debug, PartialEq, Eq, Structural)]
pub struct KeyDerivationSchedule {
    pub next_index: u64,
}

impl KeyDerivationSchedule {
    pub fn new(next_index: u64) -> (r: KeyDerivationSchedule)
        ensures
            r.next_index == next_index,
    {
        KeyDerivationSchedule { next_index }
    }
}

/// Hands out the schedule's next derivation index and advances it, or fails
/// when every index has been used.
pub fn next_key(schedule: &mut KeyDerivationSchedule) -> (r: Result<u64, TransferError>)
    ensures
        old(schedule).next_index < u64::MAX ==> r == Ok::<u64, TransferError>(
            old(schedule).next_index,
        ) && final(schedule).next_index == old(schedule).next_index + 1,
        old(schedule).next_index == u64::MAX ==> r == Err::<u64, TransferError>(
            TransferError::KeyScheduleExhausted,
        ) && *final(schedule) == *old(schedule),
{
    if schedule.next_index == u64::MAX {
        Err(TransferError::KeyScheduleExhausted)
    } else {
        let index = schedule.next_index;
        schedule.next_index = index + 1;
        Ok(index)
    }
}

/// The blinding mask of a statement.
#[derive(Clone, Copy, Debug, PartialEq, Eq, Structural)]
pub enum MaskSource {
    /// The additive identity: no mask material is allocated.
    Zero,
    /// The key derived at this index of the account's schedule.
    Derived { key_index: u64 },
}

/// A proof statement as planned: the amounts, the mask, and the key to which
/// the value and mask are encrypted under a fresh nonce.
#[derive(Clone, Copy, Debug, PartialEq, Eq)]
pub struct StatementPlan {
    pub amount: Amount,
    pub mask: MaskSource,
    pub recipient_public_key: PublicKey,
    pub minimum_value_promise: u64,
    pub reveal_amount: Amount,
    pub resource_view_key: Option<PublicKey>,
}

/// The statement planned for `confidential_amount` to `recipient`, whose mask
/// (if any) is derived at `key_index`.
pub open spec fn planned_statement(
    recipient: PublicKey,
    confidential_amount: Amount,
    reveal_amount: Amount,
    resource_view_key: Option<PublicKey>,
    key_index: u64,
) -> StatementPlan {
    StatementPlan {
        amount: confidential_amount,
        mask: if confidential_amount.0 == 0 {
            MaskSource::Zero
        } else {
            MaskSource::Derived { key_index }
        },
        recipient_public_key: recipient,
        minimum_value_promise: 0,
        reveal_amount,
        resource_view_key,
    }
}

/// Plans the statement that carries `confidential_amount` (and the revealed
/// `reveal_amount`) to `dest_public_key`.
///
/// A zero confidential amount takes the zero mask and leaves the schedule as
/// it is; any other takes the schedule's next key. A negative confidential
/// amount is refused with `InvalidAmount`.
pub fn create_confidential_proof_statement(
    schedule: &mut KeyDerivationSchedule,
    dest_public_key: PublicKey,
    confidential_amount: Amount,
    reveal_amount: Amount,
    resource_view_key: Option<PublicKey>,
) -> (r: Result<StatementPlan, TransferError>)
    ensures
        confidential_amount.0 < 0 ==> r == Err::<StatementPlan, TransferError>(
            TransferError::InvalidAmount,
        ) && *final(schedule) == *old(schedule),
        confidential_amount.0 == 0 ==> r == Ok::<StatementPlan, TransferError>(
            planned_statement(
                dest_public_key,
                confidential_amount,
                reveal_amount,
                resource_view_key,
                0,
            ),
        ) && *final(schedule) == *old(schedule),
        confidential_amount.0 > 0 && old(schedule).next_index == u64::MAX ==> r == Err::<
            StatementPlan,
            TransferError,
        >(TransferError::KeyScheduleExhausted) && *final(schedule) == *old(schedule),
        confidential_amount.0 > 0 && old(schedule).next_index < u64::MAX ==> r == Ok::<
            StatementPlan,
            TransferError,
        >(
            planned_statement(
                dest_public_key,
                confidential_amount,
                reveal_amount,
                resource_view_key,
                old(schedule).next_index,
            ),
        ) && final(schedule).next_index == old(schedule).next_index + 1,
{
    if confidential_amount.is_negative() {
        return Err(TransferError::InvalidAmount);
    }
    let mask = if confidential_amount.is_zero() {
        MaskSource::Zero
    } else {
        let key_index = next_key(schedule)?;
        MaskSource::Derived { key_index }
    };
    Ok(
        StatementPlan {
            amount: confidential_amount,
            mask,
            recipient_public_key: dest_public_key,
            minimum_value_promise: 0,
            reveal_amount,
            resource_view_key,
        },
    )
}

/// Plans the change statement back to `source_public_key`: none when the
/// selected confidential total equals the amount needed from the confidential
/// pool, else a statement for the positive difference. A total below the
/// amount needed is `InsufficientFunds`.
pub fn create_change_statement(
    schedule: &mut KeyDerivationSchedule,
    source_public_key: PublicKey,
    total_selected_confidential: Amount,
    amount_needed: Amount,
    resource_view_key: Option<PublicKey>,
) -> (r: Result<Option<StatementPlan>, TransferError>)
    requires
        amount_needed.0 >= 0,
    ensures
        total_selected_confidential.0 < amount_needed.0 ==> r == Err::<
            Option<StatementPlan>,
            TransferError,
        >(TransferError::InsufficientFunds) && *final(schedule) == *old(schedule),
        total_selected_confidential.0 == amount_needed.0 ==> r == Ok::<
            Option<StatementPlan>,
            TransferError,
        >(None) && *final(schedule) == *old(schedule),
        total_selected_confidential.0 > amount_needed.0 && old(schedule).next_index == u64::MAX
            ==> r == Err::<Option<StatementPlan>, TransferError>(
            TransferError::KeyScheduleExhausted,
        ) && *final(schedule) == *old(schedule),
        total_selected_confidential.0 > amount_needed.0 && old(schedule).next_index < u64::MAX
            ==> r == Ok::<Option<StatementPlan>, TransferError>(
            Some(
                planned_statement(
                    source_public_key,
                    Amount((total_selected_confidential.0 - amount_needed.0) as i64),
                    Amount(0),
                    resource_view_key,
                    old(schedule).next_index,
                ),
            ),
        ) && final(schedule).next_index == old(schedule).next_index + 1,
{
    let change = match total_selected_confidential.checked_sub_positive(amount_needed) {
        Some(c) => c,
        None => {
            return Err(TransferError::InsufficientFunds);
        },
    };
    if change.is_zero() {
        Ok(None)
    } else {
        let statement = create_confidential_proof_statement(
            schedule,
            source_public_key,
            change,
            Amount::zero(),
            resource_view_key,
        )?;
        Ok(Some(statement))
    }
}

} // verus!
