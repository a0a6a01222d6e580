use vstd::prelude::*;
use crate::amount::{Amount, TransferError};
use crate::output::{
    classify_all, decoded_order, distinct_commitments, lemma_decoded_model_origin, get_confidential_outputs_from_vault, ConfidentialOutputModel,
    UnblindedOutput,
};
use crate::selection::{
    get_confidential_amount_from_vault, lemma_selection_only_unspent, select_greedy, sum_values,
    ConfidentialTransferInputSelection,
};
use crate::statement::{
    create_change_statement, create_confidential_proof_statement, planned_statement,
    KeyDerivationSchedule, StatementPlan,
};
use crate::types::{ComponentAddress, ConfidentialProofId, PublicKey, ResourceAddress, VaultId};

verus! {

/// The inputs chosen for a transfer: confidential outputs in the order they
/// were selected, and a revealed amount drawn from elsewhere.
#[derive(Clone, Debug, PartialEq, Eq)]
pub struct InputsToSpend {
    pub confidential: Vec<ConfidentialOutputModel>,
    pub proof_id: ConfidentialProofId,
    pub revealed: Amount,
}

proof fn lemma_sum_values_prefix(s: Seq<ConfidentialOutputModel>, i: int)
    requires
        0 <= i < s.len(),
    ensures
        sum_values(s.subrange(0, i + 1)) == sum_values(s.subrange(0, i)) + s[i].value,
{
    assert(s.subrange(0, i + 1).drop_last() =~= s.subrange(0, i));
}

proof fn lemma_sum_values_prefix_le(s: Seq<ConfidentialOutputModel>, i: int)
    requires
        0 <= i <= s.len(),
    ensures
        sum_values(s.subrange(0, i)) <= sum_values(s),
    decreases s.len() - i,
{
    if i < s.len() {
        lemma_sum_values_prefix(s, i);
        lemma_sum_values_prefix_le(s, i + 1);
    } else {
        assert(s.subrange(0, i) =~= s);
    }
}

impl InputsToSpend {
    /// The sum of the selected confidential values, as an `Amount`; fails
    /// with `AmountOverflow` when the sum exceeds `i64::MAX`.
    pub fn total_confidential_amount(&self) -> (r: Result<Amount, TransferError>)
        ensures
            sum_values(self.confidential@) > i64::MAX ==> r == Err::<Amount, TransferError>(
                TransferError::AmountOverflow,
            ),
            sum_values(self.confidential@) <= i64::MAX ==> r == Ok::<Amount, TransferError>(
                Amount(sum_values(self.confidential@) as i64),
            ),
    {
        let n = self.confidential.len();
        let mut total: u64 = 0;
        let mut i: usize = 0;
        while i < n
            invariant
                n == self.confidential@.len(),
                i <= n,
                total <= i64::MAX,
                total == sum_values(self.confidential@.subrange(0, i as int)),
            decreases n - i,
        {
            proof {
                lemma_sum_values_prefix(self.confidential@, i as int);
            }
            let v = self.confidential[i].value;
            if v > i64::MAX as u64 - total {
                proof {
                    lemma_sum_values_prefix_le(self.confidential@, i + 1);
                }
                return Err(TransferError::AmountOverflow);
            }
            total = total + v;
            i = i + 1;
        }
        assert(self.confidential@.subrange(0, n as int) =~= self.confidential@);
        Ok(Amount(total as i64))
    }

    /// The selected confidential total plus the revealed amount; fails with
    /// `AmountOverflow` when either does not fit an `i64`.
    pub fn total_amount(&self) -> (r: Result<Amount, TransferError>)
        ensures
            sum_values(self.confidential@) + self.revealed.0 > i64::MAX || sum_values(
                self.confidential@,
            ) > i64::MAX ==> r == Err::<Amount, TransferError>(TransferError::AmountOverflow),
            sum_values(self.confidential@) + self.revealed.0 <= i64::MAX && sum_values(
                self.confidential@,
            ) <= i64::MAX ==> r == Ok::<Amount, TransferError>(
                Amount((sum_values(self.confidential@) + self.revealed.0) as i64),
            ),
    {
        proof {
            crate::selection::lemma_sum_values_nonneg(self.confidential@);
        }
        let confidential = self.total_confidential_amount()?;
        match confidential.checked_add(self.revealed) {
            Some(total) => Ok(total),
            None => Err(TransferError::AmountOverflow),
        }
    }
}

/// Everything a confidential transfer request names.
#[derive(Clone, Copy, Debug, PartialEq, Eq)]
pub struct ConfidentialTransferParams {
    pub source_public_key: PublicKey,
    pub source_account_address: ComponentAddress,
    pub source_vault_id: VaultId,
    pub destination_public_key: PublicKey,
    pub destination_account_address: ComponentAddress,
    pub resource_address: ResourceAddress,
    pub resource_view_key: Option<PublicKey>,
    pub create_destination_account: bool,
    pub amount: i64,
    pub fee: i64,
    pub proof_from_resource: Option<ResourceAddress>,
    pub output_to_revealed: bool,
    pub input_selection: ConfidentialTransferInputSelection,
}

impl ConfidentialTransferParams {
    pub open spec fn spec_confidential_amount(self) -> Amount {
        if self.output_to_revealed {
            Amount(0)
        } else {
            Amount(self.amount)
        }
    }

    pub open spec fn spec_revealed_amount(self) -> Amount {
        if self.output_to_revealed {
            Amount(self.amount)
        } else {
            Amount(0)
        }
    }

    /// The share of the amount that the destination receives confidentially.
    pub fn confidential_amount(&self) -> (r: Amount)
        ensures
            r == self.spec_confidential_amount(),
    {
        if self.output_to_revealed {
            Amount::zero()
        } else {
            Amount::new(self.amount)
        }
    }

    /// The share of the amount that the destination receives in the open.
    pub fn revealed_amount(&self) -> (r: Amount)
        ensures
            r == self.spec_revealed_amount(),
    {
        if self.output_to_revealed {
            Amount::new(self.amount)
        } else {
            Amount::zero()
        }
    }
}

/// The confidential and revealed shares of a transfer add up to the
/// requested amount, whichever way the output goes: all of it revealed, or
/// all of it confidential.
pub proof fn lemma_amount_split(p: ConfidentialTransferParams)
    ensures
        p.spec_confidential_amount().0 + p.spec_revealed_amount().0 == p.amount,
        p.output_to_revealed ==> p.spec_confidential_amount().0 == 0
            && p.spec_revealed_amount().0 == p.amount,
        !p.output_to_revealed ==> p.spec_confidential_amount().0 == p.amount
            && p.spec_revealed_amount().0 == 0,
{
}

/// The confidential inputs that a `ConfidentialOnly` transfer of `amount`
/// from the decoded vault `outputs` selects.
pub open spec fn spend_selection(
    account: ComponentAddress,
    vault: VaultId,
    outputs: Seq<UnblindedOutput>,
    amount: i64,
) -> Seq<ConfidentialOutputModel> {
    select_greedy(decoded_order(classify_all(account, vault, outputs)), amount as int)
}

/// An output that does not unblind is never spent: whatever the amount,
/// every input that a `ConfidentialOnly` transfer selects is `Unspent`, and,
/// the vault's commitments being distinct, none has that output's commitment.
pub proof fn lemma_invalid_output_never_selected(
    account: ComponentAddress,
    vault: VaultId,
    outputs: Seq<UnblindedOutput>,
    i: int,
    amount: i64,
)
    requires
        0 <= i < outputs.len(),
        outputs[i].value is None,
        distinct_commitments(outputs),
    ensures
        forall|k: int|
            0 <= k < spend_selection(account, vault, outputs, amount).len() ==> (#[trigger] spend_selection(
                account,
                vault,
                outputs,
                amount,
            )[k]).status is Unspent && spend_selection(account, vault, outputs, amount)[k].commitment
                != outputs[i].output.commitment,
{
    let d = decoded_order(classify_all(account, vault, outputs));
    let sel = spend_selection(account, vault, outputs, amount);
    lemma_selection_only_unspent(d, amount as int);
    assert forall|k: int| 0 <= k < sel.len() implies (#[trigger] sel[k]).status is Unspent
        && sel[k].commitment != outputs[i].output.commitment by {
        let j = lemma_decoded_model_origin(account, vault, outputs, sel[k]);
        if j == i {
            assert(sel[k].status is Invalid);
        } else {
            assert(outputs[j].output.commitment != outputs[i].output.commitment);
        }
    }
}

/// Resolves the inputs of a transfer of `spend_amount` from the account's
/// vault, under the given selection strategy.
///
/// Only `ConfidentialOnly` is implemented; the other strategies fail with
/// `UnsupportedStrategy`. The selection may fall short of the amount: the
/// caller compares totals.
pub fn resolved_inputs_for_transfer(
    from_account: ComponentAddress,
    vault_address: VaultId,
    vault_outputs: Option<Vec<UnblindedOutput>>,
    spend_amount: Amount,
    input_selection: ConfidentialTransferInputSelection,
) -> (r: Result<InputsToSpend, TransferError>)
    ensures
        !(input_selection is ConfidentialOnly) ==> r == Err::<InputsToSpend, TransferError>(
            TransferError::UnsupportedStrategy,
        ),
        input_selection is ConfidentialOnly && spend_amount.0 < 0 ==> r == Err::<
            InputsToSpend,
            TransferError,
        >(TransferError::InvalidAmount),
        input_selection is ConfidentialOnly && spend_amount.0 >= 0 && vault_outputs is None ==> r
            == Err::<InputsToSpend, TransferError>(TransferError::NoConfidentialResource),
        input_selection is ConfidentialOnly && spend_amount.0 >= 0 && vault_outputs is Some ==> (r
            matches Ok(inputs) && inputs.confidential@ == spend_selection(
            from_account,
            vault_address,
            vault_outputs->0@,
            spend_amount.0,
        ) && inputs.proof_id == 0 && inputs.revealed == Amount(0)),
{
    match input_selection {
        ConfidentialTransferInputSelection::ConfidentialOnly => {
            if spend_amount.is_negative() {
                return Err(TransferError::InvalidAmount);
            }
            let candidates = get_confidential_outputs_from_vault(
                from_account,
                vault_address,
                vault_outputs,
            )?;
            let (confidential, _total) = get_confidential_amount_from_vault(
                candidates,
                spend_amount,
            )?;
            Ok(InputsToSpend { confidential, proof_id: 0, revealed: Amount::zero() })
        },
        ConfidentialTransferInputSelection::RevealedOnly => Err(TransferError::UnsupportedStrategy),
        ConfidentialTransferInputSelection::PreferRevealed => Err(
            TransferError::UnsupportedStrategy,
        ),
        ConfidentialTransferInputSelection::PreferConfidential => Err(
            TransferError::UnsupportedStrategy,
        ),
    }
}

/// What a confidential transfer decides before any cryptography runs: the
/// inputs to spend, the statement to the destination, and the change
/// statement back to the source (none when the inputs match exactly).
#[derive(Clone, Debug, PartialEq, Eq)]
pub struct TransferPlan {
    pub inputs: InputsToSpend,
    pub output_statement: StatementPlan,
    pub change_statement: Option<StatementPlan>,
}

/// The vault's outputs as a sequence, when the vault has a confidential bucket.
pub open spec fn outputs_view(vault_outputs: Option<Vec<UnblindedOutput>>) -> Option<
    Seq<UnblindedOutput>,
> {
    match vault_outputs {
        Some(v) => Some(v@),
        None => None,
    }
}

/// The derivation index that follows the output statement's.
pub open spec fn index_after_output(p: ConfidentialTransferParams, n: u64) -> int {
    if p.spec_confidential_amount().0 > 0 {
        n + 1
    } else {
        n as int
    }
}

/// The error, if any, with which planning the transfer `p` fails, given the
/// vault's unblinded outputs and the schedule's next index `n`; the first
/// failing stage decides.
pub open spec fn plan_error(
    p: ConfidentialTransferParams,
    outputs: Option<Seq<UnblindedOutput>>,
    n: u64,
) -> Option<TransferError> {
    if !(p.input_selection is ConfidentialOnly) {
        Some(TransferError::UnsupportedStrategy)
    } else if p.amount < 0 {
        Some(TransferError::InvalidAmount)
    } else if outputs is None {
        Some(TransferError::NoConfidentialResource)
    } else if p.spec_confidential_amount().0 > 0 && n == u64::MAX {
        Some(TransferError::KeyScheduleExhausted)
    } else {
        let total = sum_values(
            spend_selection(p.source_account_address, p.source_vault_id, outputs->0, p.amount),
        );
        if total > i64::MAX {
            Some(TransferError::AmountOverflow)
        } else if total < p.amount {
            Some(TransferError::InsufficientFunds)
        } else if total > p.amount && index_after_output(p, n) == u64::MAX {
            Some(TransferError::KeyScheduleExhausted)
        } else {
            None
        }
    }
}

/// Plans a confidential transfer: selects the inputs from the account's
/// decoded vault, plans the statement to the destination and, when the
/// inputs exceed the amount, the change statement back to the source.
///
/// Nothing is planned on failure; the error is that of the first failing
/// stage (see `plan_error`).
pub fn plan_confidential_transfer(
    params: &ConfidentialTransferParams,
    vault_outputs: Option<Vec<UnblindedOutput>>,
    schedule: &mut KeyDerivationSchedule,
) -> (r: Result<TransferPlan, TransferError>)
    ensures
        plan_error(*params, outputs_view(vault_outputs), old(schedule).next_index) matches Some(e)
            ==> r == Err::<TransferPlan, TransferError>(e),
        plan_error(*params, outputs_view(vault_outputs), old(schedule).next_index) is None ==> ({
            let sel = spend_selection(
                params.source_account_address,
                params.source_vault_id,
                vault_outputs->0@,
                params.amount,
            );
            let total = sum_values(sel);
            let n1 = index_after_output(*params, old(schedule).next_index);
            &&& r matches Ok(plan)
            &&& plan.inputs.confidential@ == sel
            &&& plan.inputs.proof_id == 0
            &&& plan.inputs.revealed == Amount(0)
            &&& plan.output_statement == planned_statement(
                params.destination_public_key,
                params.spec_confidential_amount(),
                params.spec_revealed_amount(),
                params.resource_view_key,
                old(schedule).next_index,
            )
            &&& total == params.amount ==> plan.change_statement is None
                && final(schedule).next_index == n1
            &&& total > params.amount ==> plan.change_statement == Some(
                planned_statement(
                    params.source_public_key,
                    Amount((total - params.amount) as i64),
                    Amount(0),
                    params.resource_view_key,
                    n1 as u64,
                ),
            ) && final(schedule).next_index == n1 + 1
        }),
{
    let amount = Amount::new(params.amount);
    let inputs = resolved_inputs_for_transfer(
        params.source_account_address,
        params.source_vault_id,
        vault_outputs,
        amount,
        params.input_selection,
    )?;
    let output_statement = create_confidential_proof_statement(
        schedule,
        params.destination_public_key,
        params.confidential_amount(),
        params.revealed_amount(),
        params.resource_view_key,
    )?;
    let remaining_left_to_pay = match amount.checked_sub_positive(inputs.revealed) {
        Some(a) => a,
        None => {
            return Err(TransferError::InvalidAmount);
        },
    };
    let ghost sel = spend_selection(
        params.source_account_address,
        params.source_vault_id,
        vault_outputs->0@,
        params.amount,
    );
    proof {
        crate::selection::lemma_sum_values_nonneg(sel);
    }
    let total_confidential = inputs.total_confidential_amount()?;
    let change_statement = create_change_statement(
        schedule,
        params.source_public_key,
        total_confidential,
        remaining_left_to_pay,
        params.resource_view_key,
    )?;
    Ok(TransferPlan { inputs, output_statement, change_statement })
}

} // verus!
