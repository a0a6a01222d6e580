use vstd::prelude::*;

verus! {

/// The 32-byte engine hash, under the "ShardId" domain label, of a hash and
/// a version number.
pub uninterp spec fn shard_hash(hash: Seq<u8>, version: u32) -> Seq<u8>;

/// Relies on tari_engine_types' `TariHasher32`: a domain-separated 32-byte
/// digest of the Borsh encodings of the hash and the version, fixed by its
/// inputs. Borsh cannot encode a slice longer than `u32::MAX` (the hasher
/// panics), so such a hash is excluded.
#[verifier::external_body]
fn engine_shard_hash(hash: &[u8], version: u32) -> (r: [u8; 32])
    requires
        hash@.len() <= u32::MAX,
    ensures
        r@ == shard_hash(hash@, version),
{
    tari_engine_types::hashing::TariHasher32::new_with_label("ShardId")
        .chain(hash)
        .chain(&version)
        .result()
        .into_array()
}

/// The identifier of a shard of the ledger's state space.
#[derive(Clone, Copy, Debug, PartialEq, Eq, Hash)]
pub struct ShardId(pub [u8; 32]);

impl ShardId {
    /// The shard of a substate, from the substate's canonical hash and the
    /// version of the substate. The hash is at most `u32::MAX` bytes long,
    /// the longest slice the engine's encoding can hash.
    pub fn from_hash(hash: &[u8], version: u32) -> (r: ShardId)
        requires
            hash@.len() <= u32::MAX,
        ensures
            r.0@ == shard_hash(hash@, version),
    {
        ShardId(engine_shard_hash(hash, version))
    }
}

} // verus!
