use vstd::prelude::*;
use crate::types::{ComponentAddress, ResourceAddress, VaultId};

verus! {

/// Address of an unclaimed confidential output: its 32-byte hash.
#[derive(Clone, Copy, Debug, PartialEq, Eq)]
pub struct UnclaimedConfidentialOutputAddress(pub [u8; 32]);

/// Address of a transaction receipt: its 32-byte hash.
#[derive(Clone, Copy, Debug, PartialEq, Eq)]
pub struct TransactionReceiptAddress(pub [u8; 32]);

/// Address of a validator fee claim: its 32-byte hash.
#[derive(Clone, Copy, Debug, PartialEq, Eq)]
pub struct FeeClaimAddress(pub [u8; 32]);

impl FeeClaimAddress {
    pub fn new(address: [u8; 32]) -> (r: FeeClaimAddress)
        ensures
            r.0 == address,
    {
        FeeClaimAddress(address)
    }

    pub fn hash(&self) -> (r: &[u8; 32])
        ensures
            *r == self.0,
    {
        &self.0
    }
}

/// The identifier of a non-fungible token within its resource.
#[derive(Clone, Debug, PartialEq, Eq)]
pub enum NonFungibleId {
    U256([u8; 32]),
    String(String),
    Uint32(u32),
    Uint64(u64),
}

/// A non-fungible token: its resource and its identifier.
#[derive(Clone, Debug, PartialEq, Eq)]
pub struct NonFungibleAddress {
    pub resource_address: ResourceAddress,
    pub id: NonFungibleId,
}

/// An entry of a resource's index of non-fungible tokens.
#[derive(Clone, Copy, Debug, PartialEq, Eq)]
pub struct NonFungibleIndexAddress {
    pub resource_address: ResourceAddress,
    pub index: u64,
}

/// The address of a substate of the ledger.
#[derive(Clone, Debug, PartialEq, Eq)]
pub enum SubstateAddress {
    Component(ComponentAddress),
    Resource(ResourceAddress),
    Vault(VaultId),
    UnclaimedConfidentialOutput(UnclaimedConfidentialOutputAddress),
    NonFungible(NonFungibleAddress),
    NonFungibleIndex(NonFungibleIndexAddress),
    TransactionReceipt(TransactionReceiptAddress),
    FeeClaim(FeeClaimAddress),
}

impl SubstateAddress {
    pub fn as_component_address(&self) -> (r: Option<ComponentAddress>)
        ensures
            r == (match self {
                SubstateAddress::Component(a) => Some(*a),
                _ => None::<ComponentAddress>,
            }),
    {
        match self {
            SubstateAddress::Component(a) => Some(*a),
            _ => None,
        }
    }

    pub fn as_vault_id(&self) -> (r: Option<VaultId>)
        ensures
            r == (match self {
                SubstateAddress::Vault(a) => Some(*a),
                _ => None::<VaultId>,
            }),
    {
        match self {
            SubstateAddress::Vault(a) => Some(*a),
            _ => None,
        }
    }

    pub fn as_resource_address(&self) -> (r: Option<ResourceAddress>)
        ensures
            r == (match self {
                SubstateAddress::Resource(a) => Some(*a),
                _ => None::<ResourceAddress>,
            }),
    {
        match self {
            SubstateAddress::Resource(a) => Some(*a),
            _ => None,
        }
    }

    pub fn as_unclaimed_confidential_output_address(&self) -> (r: Option<
        UnclaimedConfidentialOutputAddress,
    >)
        ensures
            r == (match self {
                SubstateAddress::UnclaimedConfidentialOutput(a) => Some(*a),
                _ => None::<UnclaimedConfidentialOutputAddress>,
            }),
    {
        match self {
            SubstateAddress::UnclaimedConfidentialOutput(a) => Some(*a),
            _ => None,
        }
    }

    pub fn as_non_fungible_address(&self) -> (r: Option<&NonFungibleAddress>)
        ensures
            r == (match self {
                SubstateAddress::NonFungible(a) => Some(a),
                _ => None::<&NonFungibleAddress>,
            }),
    {
        match self {
            SubstateAddress::NonFungible(a) => Some(a),
            _ => None,
        }
    }

    pub fn as_non_fungible_index_address(&self) -> (r: Option<&NonFungibleIndexAddress>)
        ensures
            r == (match self {
                SubstateAddress::NonFungibleIndex(a) => Some(a),
                _ => None::<&NonFungibleIndexAddress>,
            }),
    {
        match self {
            SubstateAddress::NonFungibleIndex(a) => Some(a),
            _ => None,
        }
    }

    pub fn is_resource(&self) -> (r: bool)
        ensures
            r == (self is Resource),
    {
        matches!(self, SubstateAddress::Resource(_))
    }

    pub fn is_component(&self) -> (r: bool)
        ensures
            r == (self is Component),
    {
        matches!(self, SubstateAddress::Component(_))
    }

    pub fn is_vault(&self) -> (r: bool)
        ensures
            r == (self is Vault),
    {
        matches!(self, SubstateAddress::Vault(_))
    }

    pub fn is_non_fungible(&self) -> (r: bool)
        ensures
            r == (self is NonFungible),
    {
        matches!(self, SubstateAddress::NonFungible(_))
    }

    pub fn is_non_fungible_index(&self) -> (r: bool)
        ensures
            r == (self is NonFungibleIndex),
    {
        matches!(self, SubstateAddress::NonFungibleIndex(_))
    }

    pub fn is_layer1_commitment(&self) -> (r: bool)
        ensures
            r == (self is UnclaimedConfidentialOutput),
    {
        matches!(self, SubstateAddress::UnclaimedConfidentialOutput(_))
    }

    pub fn is_transaction_receipt(&self) -> (r: bool)
        ensures
            r == (self is TransactionReceipt),
    {
        matches!(self, SubstateAddress::TransactionReceipt(_))
    }
}

/// A string that is not a well-formed substate address.
#[derive(Clone, Debug, PartialEq, Eq)]
pub struct InvalidSubstateAddressFormat(pub String);

} // verus!
