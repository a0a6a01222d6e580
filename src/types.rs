use vstd::prelude::*;
use crate::substate::UnclaimedConfidentialOutputAddress;

verus! {

/// Identifier of a confidential proof that locks outputs.
pub type ConfidentialProofId = u64;

/// Address of an account (or other) component: its 32-byte object key.
#[derive(Clone, Copy, Debug, PartialEq, Eq)]
pub struct ComponentAddress(pub [u8; 32]);

/// Address of a resource: its 32-byte object key.
#[derive(Clone, Copy, Debug, PartialEq, Eq)]
pub struct ResourceAddress(pub [u8; 32]);

/// Identifier of a vault: its 32-byte object key.
#[derive(Clone, Copy, Debug, PartialEq, Eq)]
pub struct VaultId(pub [u8; 32]);

/// A compressed Ristretto public key.
#[derive(Clone, Copy, Debug, PartialEq, Eq)]
pub struct PublicKey(pub [u8; 32]);

/// A compressed Pedersen commitment.
#[derive(Clone, Copy, Debug, PartialEq, Eq)]
pub struct Commitment(pub [u8; 32]);

/// A byte string did not have the length of a fixed-size hash.
#[derive(Clone, Copy, Debug, PartialEq, Eq, Structural)]
pub struct FixedHashSizeError;

/// One encrypted entry of a vault.
#[derive(Clone, Debug, PartialEq, Eq)]
pub struct ConfidentialOutput {
    pub commitment: Commitment,
    pub stealth_public_nonce: PublicKey,
    pub encrypted_data: Vec<u8>,
    pub minimum_value_promise: u64,
}

/// A claim of a confidential output that was burnt on the base layer.
#[derive(Clone, Debug, PartialEq, Eq)]
pub struct ConfidentialClaim {
    pub public_key: PublicKey,
    pub output_address: UnclaimedConfidentialOutputAddress,
    pub range_proof: Vec<u8>,
    /// The encoded commitment signature that proves knowledge of the opening.
    pub proof_of_knowledge: Vec<u8>,
    /// The encoded withdraw proof, when part of the value is withdrawn.
    pub withdraw_proof: Option<Vec<u8>>,
}

/// One key-value entry of a resource's metadata.
#[derive(Clone, Debug, PartialEq, Eq)]
pub struct MetadataField {
    pub key: String,
    pub value: String,
}

} // verus!
