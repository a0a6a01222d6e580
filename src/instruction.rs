use vstd::prelude::*;
use crate::amount::Amount;
use crate::epoch::Epoch;
use crate::shard_id::ShardId;
use crate::substate::SubstateAddress;
use crate::transfer::ConfidentialTransferParams;
use crate::types::{ComponentAddress, PublicKey, ResourceAddress};

verus! {

/// A named slot of the transaction's workspace, through which the output of
/// one instruction reaches a later one.
#[derive(Clone, Copy, Debug, PartialEq, Eq, Structural)]
pub enum WorkspaceKey {
    Proof,
    Bucket,
    FreeTestCoins,
}

impl WorkspaceKey {
    /// The slot's name as ASCII bytes.
    pub open spec fn spec_bytes(self) -> Seq<u8> {
        match self {
            // "proof"
            WorkspaceKey::Proof => seq![112u8, 114, 111, 111, 102],
            // "bucket"
            WorkspaceKey::Bucket => seq![98u8, 117, 99, 107, 101, 116],
            // "free_test_coins"
            WorkspaceKey::FreeTestCoins => seq![
                102u8,
                114,
                101,
                101,
                95,
                116,
                101,
                115,
                116,
                95,
                99,
                111,
                105,
                110,
                115,
            ],
        }
    }

    pub fn as_bytes(&self) -> (r: Vec<u8>)
        ensures
            r@ == self.spec_bytes(),
    {
        let r = match self {
            WorkspaceKey::Proof => vec![112u8, 114, 111, 111, 102],
            WorkspaceKey::Bucket => vec![98u8, 117, 99, 107, 101, 116],
            WorkspaceKey::FreeTestCoins => vec![
                102u8,
                114,
                101,
                101,
                95,
                116,
                101,
                115,
                116,
                95,
                99,
                111,
                105,
                110,
                115,
            ],
        };
        assert(r@ =~= self.spec_bytes());
        r
    }
}

/// A method call on a component, with its arguments.
#[derive(Clone, Debug, PartialEq, Eq)]
pub enum MethodCall {
    /// `create_proof_for_resource(resource)` on an account.
    CreateProofForResource { resource: ResourceAddress },
    /// `withdraw_confidential(resource, proof)` on an account; `proof` is the
    /// encoded withdraw proof.
    WithdrawConfidential { resource: ResourceAddress, proof: Vec<u8> },
    /// `withdraw(resource, amount)` on an account.
    Withdraw { resource: ResourceAddress, amount: Amount },
    /// `deposit(Workspace(bucket))` on an account.
    Deposit { bucket: WorkspaceKey },
    /// `pay_fee(fee)` on an account.
    PayFee { fee: Amount },
    /// `take(amount)` on a faucet.
    Take { amount: Amount },
}

impl MethodCall {
    pub open spec fn spec_method_name(&self) -> Seq<char> {
        match self {
            MethodCall::CreateProofForResource { .. } => "create_proof_for_resource"@,
            MethodCall::WithdrawConfidential { .. } => "withdraw_confidential"@,
            MethodCall::Withdraw { .. } => "withdraw"@,
            MethodCall::Deposit { .. } => "deposit"@,
            MethodCall::PayFee { .. } => "pay_fee"@,
            MethodCall::Take { .. } => "take"@,
        }
    }

    /// The name of the called method.
    pub fn method_name(&self) -> (r: &'static str)
        ensures
            r@ == self.spec_method_name(),
    {
        match self {
            MethodCall::CreateProofForResource { .. } => "create_proof_for_resource",
            MethodCall::WithdrawConfidential { .. } => "withdraw_confidential",
            MethodCall::Withdraw { .. } => "withdraw",
            MethodCall::Deposit { .. } => "deposit",
            MethodCall::PayFee { .. } => "pay_fee",
            MethodCall::Take { .. } => "take",
        }
    }
}

/// One step of a transaction.
#[derive(Clone, Debug, PartialEq, Eq)]
pub enum Instruction {
    /// Creates an account owned by the key, funded from the workspace slot if
    /// one is named.
    CreateAccount { owner_public_key: PublicKey, workspace_bucket: Option<WorkspaceKey> },
    /// Calls a method of a component.
    CallMethod { component_address: ComponentAddress, call: MethodCall },
    /// Stores the previous instruction's output in a workspace slot.
    PutLastInstructionOutputOnWorkspace { key: WorkspaceKey },
}

/// The instructions and input references of a transaction, before signing.
#[derive(Clone, Debug, PartialEq, Eq)]
pub struct UnsignedTransaction {
    pub fee_instructions: Vec<Instruction>,
    pub instructions: Vec<Instruction>,
    pub input_refs: Vec<SubstateAddress>,
}

/// What a transaction signature commits to.
#[derive(Clone, Debug, PartialEq, Eq)]
pub struct TransactionSignatureFields {
    pub fee_instructions: Vec<Instruction>,
    pub instructions: Vec<Instruction>,
    pub inputs: Vec<ShardId>,
    pub input_refs: Vec<ShardId>,
    pub min_epoch: Option<Epoch>,
    pub max_epoch: Option<Epoch>,
}

/// The instruction sequence of a confidential transfer: create the
/// destination account (if asked), prove the badge (if any) onto the
/// workspace, withdraw with the proof onto the workspace, deposit from the
/// workspace, pay the fee.
pub open spec fn confidential_transfer_instructions(
    p: ConfidentialTransferParams,
    withdraw_proof: Vec<u8>,
) -> Seq<Instruction> {
    let create = if p.create_destination_account {
        seq![
            Instruction::CreateAccount {
                owner_public_key: p.destination_public_key,
                workspace_bucket: None,
            },
        ]
    } else {
        Seq::empty()
    };
    let badge = match p.proof_from_resource {
        Some(b) => seq![
            Instruction::CallMethod {
                component_address: p.source_account_address,
                call: MethodCall::CreateProofForResource { resource: b },
            },
            Instruction::PutLastInstructionOutputOnWorkspace { key: WorkspaceKey::Proof },
        ],
        None => Seq::empty(),
    };
    create + badge + seq![
        Instruction::CallMethod {
            component_address: p.source_account_address,
            call: MethodCall::WithdrawConfidential {
                resource: p.resource_address,
                proof: withdraw_proof,
            },
        },
        Instruction::PutLastInstructionOutputOnWorkspace { key: WorkspaceKey::Bucket },
        Instruction::CallMethod {
            component_address: p.destination_account_address,
            call: MethodCall::Deposit { bucket: WorkspaceKey::Bucket },
        },
        Instruction::CallMethod {
            component_address: p.source_account_address,
            call: MethodCall::PayFee { fee: Amount(p.fee) },
        },
    ]
}

/// The substates a confidential transfer reads: the resource, then the badge
/// resource if one is proved.
pub open spec fn confidential_transfer_input_refs(p: ConfidentialTransferParams) -> Seq<
    SubstateAddress,
> {
    seq![SubstateAddress::Resource(p.resource_address)] + match p.proof_from_resource {
        Some(b) => seq![SubstateAddress::Resource(b)],
        None => Seq::empty(),
    }
}

/// Assembles the ordered instructions of a confidential transfer whose
/// withdraw proof has been built, all as fee instructions, with the
/// substates they read.
pub fn build_confidential_transfer_transaction(
    params: &ConfidentialTransferParams,
    withdraw_proof: Vec<u8>,
) -> (r: UnsignedTransaction)
    ensures
        r.fee_instructions@ == confidential_transfer_instructions(*params, withdraw_proof),
        r.instructions@.len() == 0,
        r.input_refs@ == confidential_transfer_input_refs(*params),
{
    let ghost proof_arg = withdraw_proof;
    let mut input_refs: Vec<SubstateAddress> = Vec::new();
    input_refs.push(SubstateAddress::Resource(params.resource_address));
    let mut instructions: Vec<Instruction> = Vec::new();
    if params.create_destination_account {
        instructions.push(
            Instruction::CreateAccount {
                owner_public_key: params.destination_public_key,
                workspace_bucket: None,
            },
        );
    }
    if let Some(badge) = params.proof_from_resource {
        instructions.push(
            Instruction::CallMethod {
                component_address: params.source_account_address,
                call: MethodCall::CreateProofForResource { resource: badge },
            },
        );
        instructions.push(
            Instruction::PutLastInstructionOutputOnWorkspace { key: WorkspaceKey::Proof },
        );
        input_refs.push(SubstateAddress::Resource(badge));
    }
    instructions.push(
        Instruction::CallMethod {
            component_address: params.source_account_address,
            call: MethodCall::WithdrawConfidential {
                resource: params.resource_address,
                proof: withdraw_proof,
            },
        },
    );
    instructions.push(
        Instruction::PutLastInstructionOutputOnWorkspace { key: WorkspaceKey::Bucket },
    );
    instructions.push(
        Instruction::CallMethod {
            component_address: params.destination_account_address,
            call: MethodCall::Deposit { bucket: WorkspaceKey::Bucket },
        },
    );
    instructions.push(
        Instruction::CallMethod {
            component_address: params.source_account_address,
            call: MethodCall::PayFee { fee: Amount::new(params.fee) },
        },
    );
    assert(instructions@ =~= confidential_transfer_instructions(*params, proof_arg));
    assert(input_refs@ =~= confidential_transfer_input_refs(*params));
    UnsignedTransaction { fee_instructions: instructions, instructions: Vec::new(), input_refs }
}

/// The instruction sequence of a revealed transfer: withdraw onto the
/// workspace, create the destination account (if asked), deposit from the
/// workspace, pay the fee.
pub open spec fn transfer_instructions(
    source_account_address: ComponentAddress,
    destination_public_key: PublicKey,
    destination_account_address: ComponentAddress,
    create_destination_account: bool,
    resource_address: ResourceAddress,
    amount: i64,
    fee: i64,
) -> Seq<Instruction> {
    seq![
        Instruction::CallMethod {
            component_address: source_account_address,
            call: MethodCall::Withdraw { resource: resource_address, amount: Amount(amount) },
        },
        Instruction::PutLastInstructionOutputOnWorkspace { key: WorkspaceKey::Bucket },
    ] + (if create_destination_account {
        seq![
            Instruction::CreateAccount {
                owner_public_key: destination_public_key,
                workspace_bucket: None,
            },
        ]
    } else {
        Seq::empty()
    }) + seq![
        Instruction::CallMethod {
            component_address: destination_account_address,
            call: MethodCall::Deposit { bucket: WorkspaceKey::Bucket },
        },
        Instruction::CallMethod {
            component_address: source_account_address,
            call: MethodCall::PayFee { fee: Amount(fee) },
        },
    ]
}

/// Assembles a revealed transfer of `amount` of a resource from the source
/// account to the destination account, all as fee instructions, reading the
/// resource.
pub fn create_transfer_transaction(
    source_account_address: ComponentAddress,
    destination_public_key: PublicKey,
    destination_account_address: ComponentAddress,
    create_destination_account: bool,
    resource_address: ResourceAddress,
    amount: i64,
    fee: i64,
) -> (r: UnsignedTransaction)
    ensures
        r.fee_instructions@ == transfer_instructions(
            source_account_address,
            destination_public_key,
            destination_account_address,
            create_destination_account,
            resource_address,
            amount,
            fee,
        ),
        r.instructions@.len() == 0,
        r.input_refs@ == seq![SubstateAddress::Resource(resource_address)],
{
    let mut instructions: Vec<Instruction> = Vec::new();
    instructions.push(
        Instruction::CallMethod {
            component_address: source_account_address,
            call: MethodCall::Withdraw { resource: resource_address, amount: Amount::new(amount) },
        },
    );
    instructions.push(
        Instruction::PutLastInstructionOutputOnWorkspace { key: WorkspaceKey::Bucket },
    );
    if create_destination_account {
        instructions.push(
            Instruction::CreateAccount {
                owner_public_key: destination_public_key,
                workspace_bucket: None,
            },
        );
    }
    instructions.push(
        Instruction::CallMethod {
            component_address: destination_account_address,
            call: MethodCall::Deposit { bucket: WorkspaceKey::Bucket },
        },
    );
    instructions.push(
        Instruction::CallMethod {
            component_address: source_account_address,
            call: MethodCall::PayFee { fee: Amount::new(fee) },
        },
    );
    let mut input_refs: Vec<SubstateAddress> = Vec::new();
    input_refs.push(SubstateAddress::Resource(resource_address));
    assert(instructions@ =~= transfer_instructions(
        source_account_address,
        destination_public_key,
        destination_account_address,
        create_destination_account,
        resource_address,
        amount,
        fee,
    ));
    assert(input_refs@ =~= seq![SubstateAddress::Resource(resource_address)]);
    UnsignedTransaction { fee_instructions: instructions, instructions: Vec::new(), input_refs }
}

/// The instruction sequence that funds an account from the faucet: take from
/// the faucet onto the workspace, then either create the account from the
/// workspace or deposit into the existing one, then pay the fee.
pub open spec fn free_test_coins_instructions(
    is_new_account: bool,
    faucet_address: ComponentAddress,
    account_public_key: PublicKey,
    account_address: ComponentAddress,
    amount: i64,
    fee: i64,
) -> Seq<Instruction> {
    seq![
        Instruction::CallMethod {
            component_address: faucet_address,
            call: MethodCall::Take { amount: Amount(amount) },
        },
        Instruction::PutLastInstructionOutputOnWorkspace { key: WorkspaceKey::FreeTestCoins },
        if is_new_account {
            Instruction::CreateAccount {
                owner_public_key: account_public_key,
                workspace_bucket: Some(WorkspaceKey::FreeTestCoins),
            }
        } else {
            Instruction::CallMethod {
                component_address: account_address,
                call: MethodCall::Deposit { bucket: WorkspaceKey::FreeTestCoins },
            }
        },
        Instruction::CallMethod {
            component_address: account_address,
            call: MethodCall::PayFee { fee: Amount(fee) },
        },
    ]
}

/// Assembles a transaction that funds the account with `amount` taken from
/// the faucet, all as fee instructions, reading no substate.
pub fn create_free_test_coins_transaction(
    is_new_account: bool,
    faucet_address: ComponentAddress,
    account_public_key: PublicKey,
    account_address: ComponentAddress,
    amount: i64,
    fee: i64,
) -> (r: UnsignedTransaction)
    ensures
        r.fee_instructions@ == free_test_coins_instructions(
            is_new_account,
            faucet_address,
            account_public_key,
            account_address,
            amount,
            fee,
        ),
        r.instructions@.len() == 0,
        r.input_refs@.len() == 0,
{
    let mut instructions: Vec<Instruction> = Vec::new();
    instructions.push(
        Instruction::CallMethod {
            component_address: faucet_address,
            call: MethodCall::Take { amount: Amount::new(amount) },
        },
    );
    instructions.push(
        Instruction::PutLastInstructionOutputOnWorkspace { key: WorkspaceKey::FreeTestCoins },
    );
    if is_new_account {
        instructions.push(
            Instruction::CreateAccount {
                owner_public_key: account_public_key,
                workspace_bucket: Some(WorkspaceKey::FreeTestCoins),
            },
        );
    } else {
        instructions.push(
            Instruction::CallMethod {
                component_address: account_address,
                call: MethodCall::Deposit { bucket: WorkspaceKey::FreeTestCoins },
            },
        );
    }
    instructions.push(
        Instruction::CallMethod {
            component_address: account_address,
            call: MethodCall::PayFee { fee: Amount::new(fee) },
        },
    );
    assert(instructions@ =~= free_test_coins_instructions(
        is_new_account,
        faucet_address,
        account_public_key,
        account_address,
        amount,
        fee,
    ));
    UnsignedTransaction {
        fee_instructions: instructions,
        instructions: Vec::new(),
        input_refs: Vec::new(),
    }
}

} // verus!
