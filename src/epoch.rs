use vstd::prelude::*;

verus! {

/// A numbered epoch of the ledger.
#[derive(Clone, Copy, Debug, PartialEq, Eq, Structural, PartialOrd, Ord, Hash)]
pub struct Epoch(pub u64);

/// The eight little-endian bytes of `x`.
pub open spec fn le_bytes_u64(x: u64) -> Seq<u8> {
    seq![
        (x % 0x100) as u8,
        (x / 0x100 % 0x100) as u8,
        (x / 0x1_0000 % 0x100) as u8,
        (x / 0x100_0000 % 0x100) as u8,
        (x / 0x1_0000_0000 % 0x100) as u8,
        (x / 0x100_0000_0000 % 0x100) as u8,
        (x / 0x1_0000_0000_0000 % 0x100) as u8,
        (x / 0x100_0000_0000_0000 % 0x100) as u8,
    ]
}

impl Epoch {
    pub fn as_u64(self) -> (r: u64)
        ensures
            r == self.0,
    {
        self.0
    }

    pub fn is_zero(&self) -> (r: bool)
        ensures
            r == (self.0 == 0),
    {
        self.0 == 0
    }

    /// The epoch number as eight little-endian bytes.
    pub fn to_le_bytes(self) -> (r: [u8; 8])
        ensures
            r@ == le_bytes_u64(self.0),
    {
        let x = self.0;
        let r: [u8; 8] = [
            (x % 0x100) as u8,
            (x / 0x100 % 0x100) as u8,
            (x / 0x1_0000 % 0x100) as u8,
            (x / 0x100_0000 % 0x100) as u8,
            (x / 0x1_0000_0000 % 0x100) as u8,
            (x / 0x100_0000_0000 % 0x100) as u8,
            (x / 0x1_0000_0000_0000 % 0x100) as u8,
            (x / 0x100_0000_0000_0000 % 0x100) as u8,
        ];
        assert(r@ =~= le_bytes_u64(x));
        r
    }

    /// `self - other`, or epoch 0 when `other` is later.
    pub fn saturating_sub(&self, other: Epoch) -> (r: Epoch)
        ensures
            r.0 == (if self.0 >= other.0 {
                self.0 - other.0
            } else {
                0
            }),
    {
        Epoch(self.0.saturating_sub(other.0))
    }

    /// `self - other`, or `None` when `other` is later.
    pub fn checked_sub(&self, other: Epoch) -> (r: Option<Epoch>)
        ensures
            r == (if self.0 >= other.0 {
                Some(Epoch((self.0 - other.0) as u64))
            } else {
                None::<Epoch>
            }),
    {
        match self.0.checked_sub(other.0) {
            Some(d) => Some(Epoch(d)),
            None => None,
        }
    }
}

impl From<u64> for Epoch {
    fn from(e: u64) -> (r: Epoch) {
        Epoch(e)
    }
}

impl vstd::std_specs::convert::FromSpecImpl<u64> for Epoch {
    open spec fn obeys_from_spec() -> bool {
        true
    }

    open spec fn from_spec(e: u64) -> Epoch {
        Epoch(e)
    }
}

} // verus!
