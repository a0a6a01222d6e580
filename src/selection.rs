use vstd::prelude::*;
use crate::amount::{Amount, TransferError};
use crate::output::{well_classified, ConfidentialOutputModel};

verus! {

/// How the inputs of a transfer are drawn from the account's balances.
#[derive(Clone, Copy, Debug, PartialEq, Eq, Structural)]
pub enum ConfidentialTransferInputSelection {
    /// Draw only from confidential outputs; never touch the revealed balance.
    ConfidentialOnly,
    /// Draw only from the revealed balance.
    RevealedOnly,
    /// Draw from the revealed balance first.
    PreferRevealed,
    /// Draw from confidential outputs first.
    PreferConfidential,
}

/// The sum of the models' values.
pub open spec fn sum_values(s: Seq<ConfidentialOutputModel>) -> int
    decreases s.len(),
{
    if s.len() == 0 {
        0
    } else {
        sum_values(s.drop_last()) + s.last().value
    }
}

/// Descending greedy selection: take candidates from the end of `c` (the
/// largest, when `c` is in ascending order), skipping those that are not
/// `Unspent`, until the values taken reach `need` or `c` is exhausted. The
/// result lists the candidates in the order they were taken.
pub open spec fn select_greedy(c: Seq<ConfidentialOutputModel>, need: int) -> Seq<
    ConfidentialOutputModel,
>
    decreases c.len(),
{
    if need <= 0 || c.len() == 0 {
        Seq::empty()
    } else if c.last().status is Unspent {
        seq![c.last()] + select_greedy(c.drop_last(), need - c.last().value)
    } else {
        select_greedy(c.drop_last(), need)
    }
}

proof fn lemma_sum_values_push(s: Seq<ConfidentialOutputModel>, m: ConfidentialOutputModel)
    ensures
        sum_values(s.push(m)) == sum_values(s) + m.value,
{
    assert(s.push(m).drop_last() =~= s);
}

proof fn lemma_sum_values_prepend(m: ConfidentialOutputModel, s: Seq<ConfidentialOutputModel>)
    ensures
        sum_values(seq![m] + s) == m.value + sum_values(s),
    decreases s.len(),
{
    if s.len() > 0 {
        assert((seq![m] + s).drop_last() =~= seq![m] + s.drop_last());
        assert((seq![m] + s).last() == s.last());
        lemma_sum_values_prepend(m, s.drop_last());
        assert(sum_values(seq![m] + s) == sum_values((seq![m] + s).drop_last()) + s.last().value);
    } else {
        assert(seq![m] + s =~= seq![m]);
        assert(seq![m].drop_last() =~= Seq::<ConfidentialOutputModel>::empty());
        assert(sum_values(Seq::<ConfidentialOutputModel>::empty()) == 0);
        assert(sum_values(s) == 0);
        assert(sum_values(seq![m]) == sum_values(seq![m].drop_last()) + m.value);
    }
}

pub proof fn lemma_sum_values_nonneg(s: Seq<ConfidentialOutputModel>)
    ensures
        sum_values(s) >= 0,
    decreases s.len(),
{
    if s.len() > 0 {
        lemma_sum_values_nonneg(s.drop_last());
    }
}

/// Every selected candidate is `Unspent` and was a candidate.
pub proof fn lemma_selection_only_unspent(c: Seq<ConfidentialOutputModel>, need: int)
    ensures
        forall|k: int|
            0 <= k < select_greedy(c, need).len() ==> (#[trigger] select_greedy(c, need)[k]).status
                is Unspent && c.contains(select_greedy(c, need)[k]),
    decreases c.len(),
{
    if need > 0 && c.len() > 0 {
        let rest = c.drop_last();
        let need2 = if c.last().status is Unspent {
            need - c.last().value
        } else {
            need
        };
        lemma_selection_only_unspent(rest, need2);
        let sel = select_greedy(c, need);
        assert forall|k: int| 0 <= k < sel.len() implies (#[trigger] sel[k]).status is Unspent
            && c.contains(sel[k]) by {
            if c.last().status is Unspent {
                if k == 0 {
                    assert(c[c.len() - 1] == sel[k]);
                } else {
                    let x = select_greedy(rest, need2)[k - 1];
                    assert(sel[k] == x);
                    assert(rest.contains(x));
                    let j = choose|j: int| 0 <= j < rest.len() && rest[j] == x;
                    assert(c[j] == x);
                }
            } else {
                let x = select_greedy(rest, need2)[k];
                assert(rest.contains(x));
                let j = choose|j: int| 0 <= j < rest.len() && rest[j] == x;
                assert(c[j] == x);
            }
        }
    }
}

/// A successful selection over decoded candidates reaches the target, or
/// takes everything there is: the selected values sum to at least the lesser
/// of the target and the sum of all candidate values.
pub proof fn lemma_selection_covers_target(c: Seq<ConfidentialOutputModel>, target: int)
    requires
        forall|k: int| 0 <= k < c.len() ==> well_classified(#[trigger] c[k]),
    ensures
        sum_values(select_greedy(c, target)) >= (if target <= sum_values(c) {
            target
        } else {
            sum_values(c)
        }),
    decreases c.len(),
{
    if target <= 0 || c.len() == 0 {
        lemma_sum_values_nonneg(c);
    } else {
        let rest = c.drop_last();
        assert forall|k: int| 0 <= k < rest.len() implies well_classified(#[trigger] rest[k]) by {
            assert(rest[k] == c[k]);
        }
        assert(well_classified(c[c.len() - 1]));
        if c.last().status is Unspent {
            lemma_selection_covers_target(rest, target - c.last().value);
            lemma_sum_values_prepend(c.last(), select_greedy(rest, target - c.last().value));
        } else {
            lemma_selection_covers_target(rest, target);
        }
    }
}

/// Selection is deterministic: equal candidate lists and equal targets give
/// the same selected list.
pub proof fn lemma_selection_deterministic(
    c1: Seq<ConfidentialOutputModel>,
    c2: Seq<ConfidentialOutputModel>,
    t1: int,
    t2: int,
)
    requires
        c1 == c2,
        t1 == t2,
    ensures
        select_greedy(c1, t1) == select_greedy(c2, t2),
{
}

/// Selects confidential inputs for `amount` from `candidates`, taking the
/// last remaining candidate first (the largest, as decoding sorts them
/// ascending) until the running total reaches `amount`. Candidates that are
/// not `Unspent` (invalid, locked or spent outputs) are skipped and never
/// selected. A negative `amount` is refused with `InvalidAmount`.
///
/// Running out of candidates is no failure here: the partial selection is
/// returned with its total, and the caller compares totals.
pub fn get_confidential_amount_from_vault(
    candidates: Vec<ConfidentialOutputModel>,
    amount: Amount,
) -> (r: Result<(Vec<ConfidentialOutputModel>, u128), TransferError>)
    ensures
        amount.0 < 0 ==> r == Err::<(Vec<ConfidentialOutputModel>, u128), TransferError>(
            TransferError::InvalidAmount,
        ),
        amount.0 >= 0 ==> (r matches Ok((selected, total)) && selected@ == select_greedy(
            candidates@,
            amount.0 as int,
        ) && total == sum_values(selected@)),
{
    if amount.is_negative() {
        return Err(TransferError::InvalidAmount);
    }
    let target = amount.0 as u128;
    let mut remaining = candidates;
    let mut selected: Vec<ConfidentialOutputModel> = Vec::new();
    let mut total: u128 = 0;
    while total < target
        invariant_except_break
            total < target ==> selected@ + select_greedy(remaining@, target - total)
                == select_greedy(candidates@, target as int),
        invariant
            target <= i64::MAX,
            target == amount.0,
            total == sum_values(selected@),
            total < target ==> selected@ + select_greedy(remaining@, target - total)
                == select_greedy(candidates@, target as int),
            total >= target ==> selected@ == select_greedy(candidates@, target as int),
        ensures
            selected@ == select_greedy(candidates@, target as int),
            total == sum_values(selected@),
        decreases remaining@.len(),
    {
        let ghost before = remaining@;
        match remaining.pop() {
            Some(o) => {
                assert(before.drop_last() =~= remaining@);
                if o.status == crate::output::OutputStatus::Unspent {
                    let ghost sel_before = selected@;
                    proof {
                        lemma_sum_values_push(selected@, o);
                    }
                    total = total + o.value as u128;
                    selected.push(o);
                    proof {
                        assert(sel_before + select_greedy(before, target - (total - o.value))
                            =~= selected@ + select_greedy(remaining@, target - total));
                        if total >= target {
                            assert(select_greedy(remaining@, target - total) =~= Seq::<
                                ConfidentialOutputModel,
                            >::empty());
                            assert(selected@ + Seq::<ConfidentialOutputModel>::empty()
                                =~= selected@);
                        }
                    }
                }
            },
            None => {
                assert(select_greedy(before, target - total) =~= Seq::<
                    ConfidentialOutputModel,
                >::empty());
                assert(selected@ + Seq::<ConfidentialOutputModel>::empty() =~= selected@);
                break ;
            },
        }
    }
    Ok((selected, total))
}

} // verus!
