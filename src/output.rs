use vstd::prelude::*;
use crate::types::{
    Commitment, ComponentAddress, ConfidentialOutput, ConfidentialProofId, PublicKey, VaultId,
};
use crate::amount::TransferError;

verus! {

broadcast use vstd::seq_lib::group_to_multiset_ensures;

/// Where a decoded output stands in its spending life cycle.
#[derive(Clone, Copy, Debug, PartialEq, Eq, Structural)]
pub enum OutputStatus {
    /// The output is available for spending.
    Unspent,
    /// The output has been spent.
    Spent,
    /// The output is locked for spending; it becomes `Spent` once the
    /// transaction is accepted.
    Locked,
    /// The output is locked as an unconfirmed output; it becomes `Unspent`
    /// once the transaction is accepted.
    LockedUnconfirmed,
    /// The output's encrypted value or mask could not be recovered with the
    /// account's key. It is never spent and never counted in a balance.
    Invalid,
}

/// What happens to an output during a transaction's life.
#[derive(Clone, Copy, Debug, PartialEq, Eq, Structural)]
pub enum OutputEvent {
    /// The output is locked as an input of a transaction.
    Lock,
    /// The output is locked as an unconfirmed output of a transaction.
    LockUnconfirmed,
    /// The output is spent directly.
    Spend,
    /// The transaction that locked the output was accepted.
    TransactionAccepted,
    /// The transaction that locked the output was rejected.
    TransactionRejected,
}

/// The outcome of an event for an output.
#[derive(Clone, Copy, Debug, PartialEq, Eq, Structural)]
pub enum StatusTransition {
    /// The output moves to this status.
    To(OutputStatus),
    /// The output no longer exists.
    Discarded,
    /// The event does not apply to an output in this status.
    Refused,
}

/// The life cycle of an output: `Unspent` may be locked, locked
/// unconfirmed, or spent; a lock ends in `Spent` (accepted) or back in
/// `Unspent` (rejected); an unconfirmed lock ends in `Unspent` (accepted) or
/// discarded (rejected). `Spent` and `Invalid` never change.
pub open spec fn status_transition(s: OutputStatus, e: OutputEvent) -> StatusTransition {
    match (s, e) {
        (OutputStatus::Unspent, OutputEvent::Lock) => StatusTransition::To(OutputStatus::Locked),
        (OutputStatus::Unspent, OutputEvent::LockUnconfirmed) => StatusTransition::To(
            OutputStatus::LockedUnconfirmed,
        ),
        (OutputStatus::Unspent, OutputEvent::Spend) => StatusTransition::To(OutputStatus::Spent),
        (OutputStatus::Locked, OutputEvent::TransactionAccepted) => StatusTransition::To(
            OutputStatus::Spent,
        ),
        (OutputStatus::Locked, OutputEvent::TransactionRejected) => StatusTransition::To(
            OutputStatus::Unspent,
        ),
        (OutputStatus::LockedUnconfirmed, OutputEvent::TransactionAccepted) => StatusTransition::To(
            OutputStatus::Unspent,
        ),
        (OutputStatus::LockedUnconfirmed, OutputEvent::TransactionRejected) => StatusTransition::Discarded,
        _ => StatusTransition::Refused,
    }
}

impl OutputStatus {
    /// The outcome of `event` for an output in this status.
    pub fn apply(self, event: OutputEvent) -> (r: StatusTransition)
        ensures
            r == status_transition(self, event),
    {
        match (self, event) {
            (OutputStatus::Unspent, OutputEvent::Lock) => StatusTransition::To(OutputStatus::Locked),
            (OutputStatus::Unspent, OutputEvent::LockUnconfirmed) => StatusTransition::To(
                OutputStatus::LockedUnconfirmed,
            ),
            (OutputStatus::Unspent, OutputEvent::Spend) => StatusTransition::To(
                OutputStatus::Spent,
            ),
            (OutputStatus::Locked, OutputEvent::TransactionAccepted) => StatusTransition::To(
                OutputStatus::Spent,
            ),
            (OutputStatus::Locked, OutputEvent::TransactionRejected) => StatusTransition::To(
                OutputStatus::Unspent,
            ),
            (OutputStatus::LockedUnconfirmed, OutputEvent::TransactionAccepted) => StatusTransition::To(
                OutputStatus::Unspent,
            ),
            (OutputStatus::LockedUnconfirmed, OutputEvent::TransactionRejected) => StatusTransition::Discarded,
            _ => StatusTransition::Refused,
        }
    }
}

/// `Invalid` is terminal: no event moves an invalid output anywhere, and no
/// event makes an output `Invalid`.
pub proof fn lemma_invalid_is_terminal(s: OutputStatus, e: OutputEvent)
    ensures
        status_transition(OutputStatus::Invalid, e) is Refused,
        status_transition(s, e) != StatusTransition::To(OutputStatus::Invalid),
{
}

/// An output of the vault, paired with the outcome of unblinding it with the
/// account's key: the recovered value, or `None` when the encrypted payload
/// does not open the commitment.
#[derive(Clone, Debug, PartialEq, Eq)]
pub struct UnblindedOutput {
    pub output: ConfidentialOutput,
    pub value: Option<u64>,
}

/// A vault output enriched with what decoding learned of it.
#[derive(Clone, Debug, PartialEq, Eq)]
pub struct ConfidentialOutputModel {
    pub account_address: ComponentAddress,
    pub vault_address: VaultId,
    pub commitment: Commitment,
    pub value: u64,
    pub sender_public_nonce: Option<PublicKey>,
    pub encryption_secret_key_index: u64,
    pub encrypted_data: Vec<u8>,
    pub public_asset_tag: Option<PublicKey>,
    pub status: OutputStatus,
    pub locked_by_proof: Option<ConfidentialProofId>,
}

/// The decoded model of one unblinded output: `Unspent` with the recovered
/// value, or `Invalid` with value 0.
pub open spec fn classify(
    account: ComponentAddress,
    vault: VaultId,
    o: UnblindedOutput,
) -> ConfidentialOutputModel {
    ConfidentialOutputModel {
        account_address: account,
        vault_address: vault,
        commitment: o.output.commitment,
        value: match o.value {
            Some(v) => v,
            None => 0,
        },
        sender_public_nonce: Some(o.output.stealth_public_nonce),
        encryption_secret_key_index: 0,
        encrypted_data: o.output.encrypted_data,
        public_asset_tag: None,
        status: if o.value is Some {
            OutputStatus::Unspent
        } else {
            OutputStatus::Invalid
        },
        locked_by_proof: None,
    }
}

/// The models of a sequence of unblinded outputs, in the same order.
pub open spec fn classify_all(
    account: ComponentAddress,
    vault: VaultId,
    s: Seq<UnblindedOutput>,
) -> Seq<ConfidentialOutputModel> {
    s.map_values(|o: UnblindedOutput| classify(account, vault, o))
}

/// A model as decoding produces it: `Unspent` or `Invalid`, and an `Invalid`
/// output reports value 0.
pub open spec fn well_classified(m: ConfidentialOutputModel) -> bool {
    &&& (m.status is Unspent || m.status is Invalid)
    &&& (m.status is Invalid ==> m.value == 0)
}

/// The models are in ascending order of value.
pub open spec fn sorted_by_value(s: Seq<ConfidentialOutputModel>) -> bool {
    forall|i: int, j: int| 0 <= i < j < s.len() ==> s[i].value <= s[j].value
}

/// Inserts `m` in front of the first model whose value is at least `m.value`.
pub open spec fn insert_by_value(
    r: Seq<ConfidentialOutputModel>,
    m: ConfidentialOutputModel,
) -> Seq<ConfidentialOutputModel>
    decreases r.len(),
{
    if r.len() == 0 {
        seq![m]
    } else if r.first().value >= m.value {
        seq![m] + r
    } else {
        seq![r.first()] + insert_by_value(r.drop_first(), m)
    }
}

/// The order in which decoding returns models: ascending by value, models of
/// equal value in their order in the input.
pub open spec fn decoded_order(s: Seq<ConfidentialOutputModel>) -> Seq<ConfidentialOutputModel>
    decreases s.len(),
{
    if s.len() == 0 {
        Seq::empty()
    } else {
        insert_by_value(decoded_order(s.drop_first()), s.first())
    }
}

proof fn lemma_insert_by_value_at(
    r: Seq<ConfidentialOutputModel>,
    m: ConfidentialOutputModel,
    pos: int,
)
    requires
        0 <= pos <= r.len(),
        forall|k: int| 0 <= k < pos ==> (#[trigger] r[k]).value < m.value,
        pos < r.len() ==> r[pos].value >= m.value,
    ensures
        insert_by_value(r, m) == r.insert(pos, m),
    decreases pos,
{
    if pos == 0 {
        assert(r.insert(0, m) =~= seq![m] + r);
    } else {
        let t = r.drop_first();
        assert forall|k: int| 0 <= k < pos - 1 implies (#[trigger] t[k]).value < m.value by {
            assert(t[k] == r[k + 1]);
        }
        lemma_insert_by_value_at(t, m, pos - 1);
        assert(r.insert(pos, m) =~= seq![r.first()] + t.insert(pos - 1, m));
    }
}

proof fn lemma_insert_to_multiset<A>(s: Seq<A>, i: int, x: A)
    requires
        0 <= i <= s.len(),
    ensures
        s.insert(i, x).to_multiset() =~= s.to_multiset().insert(x),
{
    let t = s.insert(i, x);
    assert(t.remove(i) =~= s);
    assert(t[i] == x);
    assert(t.contains(x));
}

/// Decodes the vault's outputs into models sorted by ascending value.
///
/// `outputs` is `None` when the vault holds no committed-output bucket. An
/// output whose unblinding failed becomes an `Invalid` model of value 0; it
/// does not abort the batch.
pub fn get_confidential_outputs_from_vault(
    account_address: ComponentAddress,
    vault_address: VaultId,
    outputs: Option<Vec<UnblindedOutput>>,
) -> (r: Result<Vec<ConfidentialOutputModel>, TransferError>)
    ensures
        outputs is None ==> r == Err::<Vec<ConfidentialOutputModel>, TransferError>(
            TransferError::NoConfidentialResource,
        ),
        outputs matches Some(v) ==> r matches Ok(models) && {
            &&& models@ == decoded_order(classify_all(account_address, vault_address, v@))
            &&& models@.to_multiset() == classify_all(account_address, vault_address, v@).to_multiset()
            &&& sorted_by_value(models@)
            &&& forall|k: int| 0 <= k < models@.len() ==> well_classified(#[trigger] models@[k])
        },
{
    let mut remaining = match outputs {
        Some(v) => v,
        None => {
            return Err(TransferError::NoConfidentialResource);
        },
    };
    let ghost all = classify_all(account_address, vault_address, remaining@);
    let mut result: Vec<ConfidentialOutputModel> = Vec::new();
    assert(all =~= classify_all(account_address, vault_address, remaining@) + all.subrange(
        remaining@.len() as int,
        all.len() as int,
    ));
    while remaining.len() > 0
        invariant
            result@.to_multiset().add(
                classify_all(account_address, vault_address, remaining@).to_multiset(),
            ) == all.to_multiset(),
            sorted_by_value(result@),
            forall|k: int| 0 <= k < result@.len() ==> well_classified(#[trigger] result@[k]),
            remaining@.len() <= all.len(),
            all == classify_all(account_address, vault_address, remaining@) + all.subrange(
                remaining@.len() as int,
                all.len() as int,
            ),
            result@ == decoded_order(all.subrange(remaining@.len() as int, all.len() as int)),
        decreases remaining@.len(),
    {
        let ghost before = remaining@;
        let o = remaining.pop().unwrap();
        proof {
            let m = classify(account_address, vault_address, o);
            assert(classify_all(account_address, vault_address, before) =~= classify_all(
                account_address,
                vault_address,
                remaining@,
            ).push(m));
            let n = remaining@.len() as int;
            assert(all.subrange(n, all.len() as int) =~= seq![m] + all.subrange(
                n + 1,
                all.len() as int,
            ));
            assert(all =~= classify_all(account_address, vault_address, remaining@) + all.subrange(
                n,
                all.len() as int,
            ));
        }
        let (value, status) = match o.value {
            Some(v) => (v, OutputStatus::Unspent),
            None => (0u64, OutputStatus::Invalid),
        };
        let model = ConfidentialOutputModel {
            account_address,
            vault_address,
            commitment: o.output.commitment,
            value,
            sender_public_nonce: Some(o.output.stealth_public_nonce),
            encryption_secret_key_index: 0,
            encrypted_data: o.output.encrypted_data,
            public_asset_tag: None,
            status,
            locked_by_proof: None,
        };
        // Equal values keep their vault order: outputs are taken from the end,
        // so each one goes in front of the outputs of the same value.
        let mut pos: usize = 0;
        while pos < result.len() && result[pos].value < value
            invariant
                pos <= result@.len(),
                forall|k: int| 0 <= k < pos ==> (#[trigger] result@[k]).value < value,
            decreases result@.len() - pos,
        {
            pos = pos + 1;
        }
        let ghost old_result = result@;
        result.insert(pos, model);
        proof {
            lemma_insert_to_multiset(old_result, pos as int, model);
            if pos < old_result.len() {
                assert(old_result[pos as int].value >= value);
            }
            lemma_insert_by_value_at(old_result, model, pos as int);
            let n = remaining@.len() as int;
            assert((seq![model] + all.subrange(n + 1, all.len() as int)).drop_first() =~= all.subrange(
                n + 1,
                all.len() as int,
            ));
            old_result.insert_ensures(pos as int, model);
            assert forall|i: int, j: int| 0 <= i < j < result@.len() implies result@[i].value
                <= result@[j].value by {
                if j < pos {
                } else if j == pos {
                } else if i < pos {
                    assert(result@[j] == old_result[j - 1]);
                    assert(old_result[pos as int].value >= value);
                } else if i == pos {
                    assert(result@[j] == old_result[j - 1]);
                    assert(old_result[pos as int].value >= value);
                } else {
                    assert(result@[i] == old_result[i - 1]);
                    assert(result@[j] == old_result[j - 1]);
                }
            }
            assert forall|k: int| 0 <= k < result@.len() implies well_classified(
                #[trigger] result@[k],
            ) by {
                if k > pos {
                    assert(result@[k] == old_result[k - 1]);
                }
            }
        }
    }
    assert(all.subrange(0, all.len() as int) =~= all);
    Ok(result)
}

/// The balance that a vault's unblinded outputs hold for the account: the sum
/// of the recovered values; an output that did not unblind counts 0.
pub open spec fn unblinded_balance(s: Seq<UnblindedOutput>) -> int
    decreases s.len(),
{
    if s.len() == 0 {
        0
    } else {
        unblinded_balance(s.drop_last()) + match s.last().value {
            Some(v) => v as int,
            None => 0,
        }
    }
}

/// The account's confidential balance in the vault: the sum of the values
/// its key recovers. Fails with `NoConfidentialResource` when the vault has
/// no committed-output bucket, and with `AmountOverflow` when the sum does
/// not fit a `u64`.
pub fn get_confidential_balance(outputs: &Option<Vec<UnblindedOutput>>) -> (r: Result<
    u64,
    TransferError,
>)
    ensures
        outputs is None ==> r == Err::<u64, TransferError>(TransferError::NoConfidentialResource),
        outputs is Some && unblinded_balance(outputs->0@) > u64::MAX ==> r == Err::<
            u64,
            TransferError,
        >(TransferError::AmountOverflow),
        outputs is Some && unblinded_balance(outputs->0@) <= u64::MAX ==> r == Ok::<
            u64,
            TransferError,
        >(unblinded_balance(outputs->0@) as u64),
{
    let v = match outputs {
        Some(v) => v,
        None => {
            return Err(TransferError::NoConfidentialResource);
        },
    };
    let n = v.len();
    let mut balance: u64 = 0;
    let mut i: usize = 0;
    while i < n
        invariant
            n == v@.len(),
            outputs is Some,
            outputs->0@ == v@,
            i <= n,
            balance == unblinded_balance(v@.subrange(0, i as int)),
        decreases n - i,
    {
        proof {
            assert(v@.subrange(0, i + 1).drop_last() =~= v@.subrange(0, i as int));
        }
        let value = match v[i].value {
            Some(x) => x,
            None => 0,
        };
        if value > u64::MAX - balance {
            proof {
                lemma_unblinded_balance_prefix_le(v@, i + 1);
            }
            return Err(TransferError::AmountOverflow);
        }
        balance = balance + value;
        i = i + 1;
    }
    assert(v@.subrange(0, n as int) =~= v@);
    Ok(balance)
}

proof fn lemma_unblinded_balance_prefix_le(s: Seq<UnblindedOutput>, i: int)
    requires
        0 <= i <= s.len(),
    ensures
        unblinded_balance(s.subrange(0, i)) <= unblinded_balance(s),
    decreases s.len() - i,
{
    if i < s.len() {
        assert(s.subrange(0, i + 1).drop_last() =~= s.subrange(0, i));
        lemma_unblinded_balance_prefix_le(s, i + 1);
    } else {
        assert(s.subrange(0, i) =~= s);
    }
}

/// How the key that opens an output's encrypted mask is obtained.
#[derive(Clone, Copy, Debug, PartialEq, Eq)]
pub enum MaskDerivation {
    /// A Diffie-Hellman shared key between the account key derived at
    /// `key_index` and the sender's public nonce.
    SharedWithSender { key_index: u64, sender_public_nonce: PublicKey },
    /// The account key derived at `key_index` itself.
    Local { key_index: u64 },
}

pub open spec fn mask_derivation(m: ConfidentialOutputModel) -> MaskDerivation {
    match m.sender_public_nonce {
        Some(nonce) => MaskDerivation::SharedWithSender {
            key_index: m.encryption_secret_key_index,
            sender_public_nonce: nonce,
        },
        None => MaskDerivation::Local { key_index: m.encryption_secret_key_index },
    }
}

/// For each output to spend, in order, how the key that opens its mask is
/// derived: from the sender's public nonce when the output carries one, else
/// from the account's own derivation schedule.
pub fn resolve_output_masks(outputs: &Vec<ConfidentialOutputModel>) -> (r: Vec<MaskDerivation>)
    ensures
        r@.len() == outputs@.len(),
        forall|k: int| 0 <= k < r@.len() ==> #[trigger] r@[k] == mask_derivation(outputs@[k]),
{
    let mut r: Vec<MaskDerivation> = Vec::new();
    let n = outputs.len();
    let mut i: usize = 0;
    while i < n
        invariant
            n == outputs@.len(),
            i <= n,
            r@.len() == i,
            forall|k: int| 0 <= k < i ==> #[trigger] r@[k] == mask_derivation(outputs@[k]),
        decreases n - i,
    {
        let o = &outputs[i];
        let d = match o.sender_public_nonce {
            Some(nonce) => MaskDerivation::SharedWithSender {
                key_index: o.encryption_secret_key_index,
                sender_public_nonce: nonce,
            },
            None => MaskDerivation::Local { key_index: o.encryption_secret_key_index },
        };
        r.push(d);
        i = i + 1;
    }
    r
}

proof fn lemma_insert_by_value_is_insert(
    r: Seq<ConfidentialOutputModel>,
    m: ConfidentialOutputModel,
) -> (k: int)
    ensures
        0 <= k <= r.len(),
        insert_by_value(r, m) == r.insert(k, m),
    decreases r.len(),
{
    if r.len() == 0 {
        assert(r.insert(0, m) =~= seq![m]);
        0
    } else if r.first().value >= m.value {
        assert(r.insert(0, m) =~= seq![m] + r);
        0
    } else {
        let k = lemma_insert_by_value_is_insert(r.drop_first(), m);
        assert(r.insert(k + 1, m) =~= seq![r.first()] + r.drop_first().insert(k, m));
        k + 1
    }
}

proof fn lemma_decoded_order_to_multiset(s: Seq<ConfidentialOutputModel>)
    ensures
        decoded_order(s).to_multiset() =~= s.to_multiset(),
    decreases s.len(),
{
    if s.len() > 0 {
        let rest = s.drop_first();
        lemma_decoded_order_to_multiset(rest);
        let k = lemma_insert_by_value_is_insert(decoded_order(rest), s.first());
        lemma_insert_to_multiset(decoded_order(rest), k, s.first());
        assert(s.remove(0) =~= rest);
        assert(s.contains(s[0]));
    }
}

/// The vault's outputs have pairwise distinct commitments, as the entries of
/// a vault's commitment map do.
pub open spec fn distinct_commitments(outputs: Seq<UnblindedOutput>) -> bool {
    forall|j: int, k: int|
        0 <= j < outputs.len() && 0 <= k < outputs.len() && j != k ==> (
        #[trigger] outputs[j]).output.commitment != (#[trigger] outputs[k]).output.commitment
}

/// Every decoded model is the model of one of the vault's outputs.
pub proof fn lemma_decoded_model_origin(
    account: ComponentAddress,
    vault: VaultId,
    outputs: Seq<UnblindedOutput>,
    x: ConfidentialOutputModel,
) -> (j: int)
    requires
        decoded_order(classify_all(account, vault, outputs)).contains(x),
    ensures
        0 <= j < outputs.len(),
        x == classify(account, vault, outputs[j]),
{
    let c = classify_all(account, vault, outputs);
    lemma_decoded_order_to_multiset(c);
    assert(decoded_order(c).to_multiset().count(x) > 0);
    assert(c.contains(x));
    let j = choose|j: int| 0 <= j < c.len() && c[j] == x;
    j
}

/// An output that does not unblind is decoded as one `Invalid` model of
/// value 0: decoding keeps it, does not abort, and, the vault's commitments
/// being distinct, every decoded model with its commitment is that model.
pub proof fn lemma_invalid_output_decoded(
    account: ComponentAddress,
    vault: VaultId,
    outputs: Seq<UnblindedOutput>,
    i: int,
)
    requires
        0 <= i < outputs.len(),
        outputs[i].value is None,
        distinct_commitments(outputs),
    ensures
        decoded_order(classify_all(account, vault, outputs)).contains(
            classify(account, vault, outputs[i]),
        ),
        classify(account, vault, outputs[i]).status is Invalid,
        classify(account, vault, outputs[i]).value == 0,
        classify(account, vault, outputs[i]).commitment == outputs[i].output.commitment,
        forall|k: int|
            0 <= k < decoded_order(classify_all(account, vault, outputs)).len() && (
            #[trigger] decoded_order(classify_all(account, vault, outputs))[k]).commitment
                == outputs[i].output.commitment ==> decoded_order(
                classify_all(account, vault, outputs),
            )[k] == classify(account, vault, outputs[i]),
{
    let c = classify_all(account, vault, outputs);
    let d = decoded_order(c);
    lemma_decoded_order_to_multiset(c);
    assert(c[i] == classify(account, vault, outputs[i]));
    assert(c.contains(c[i]));
    assert(d.to_multiset().count(c[i]) > 0);
    assert forall|k: int|
        0 <= k < d.len() && (#[trigger] d[k]).commitment == outputs[i].output.commitment implies d[k]
        == classify(account, vault, outputs[i]) by {
        assert(d.contains(d[k]));
        let j = lemma_decoded_model_origin(account, vault, outputs, d[k]);
        if j != i {
            assert(outputs[j].output.commitment != outputs[i].output.commitment);
        }
    }
}

} // verus!
