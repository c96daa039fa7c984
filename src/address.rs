use vstd::prelude::*;
use crate::crypto::{blake2b256, blake2b256_of};

verus! {

/// Length of a sponsor address.
pub const ADDRESS_LENGTH: usize = 32;

/// The address of the holder of public key `pk` of the scheme with flag
/// byte `flag`: the 32-byte Blake2b hash of the flag followed by the key.
pub open spec fn address_of_public_key(flag: u8, pk: Seq<u8>) -> Seq<u8> {
    blake2b256_of(seq![flag] + pk)
}

/// The identifying handle of a signing identity: 32 bytes.
#[derive(Debug, PartialEq, Eq)]
pub struct SuiAddress {
    bytes: Vec<u8>,
}

impl View for SuiAddress {
    type V = Seq<u8>;

    closed spec fn view(&self) -> Seq<u8> {
        self.bytes@
    }
}

impl SuiAddress {
    /// An address always holds 32 bytes.
    pub open spec fn wf(&self) -> bool {
        self@.len() == ADDRESS_LENGTH
    }

    /// The address with the given bytes, or `None` unless there are 32 of them.
    pub fn from_bytes(bytes: Vec<u8>) -> (r: Option<SuiAddress>)
        ensures
            r is Some <==> bytes@.len() == ADDRESS_LENGTH,
            r matches Some(a) ==> a@ == bytes@ && a.wf(),
    {
        if bytes.len() == ADDRESS_LENGTH {
            Some(SuiAddress { bytes })
        } else {
            None
        }
    }

    /// The address derived from public key `pk` of the scheme with flag `flag`.
    pub fn from_public_key(flag: u8, pk: &[u8]) -> (r: SuiAddress)
        ensures
            r@ == address_of_public_key(flag, pk@),
            r.wf(),
    {
        let mut data: Vec<u8> = Vec::new();
        data.push(flag);
        let mut i: usize = 0;
        while i < pk.len()
            invariant
                i <= pk@.len(),
                data@ == seq![flag] + pk@.subrange(0, i as int),
            decreases pk@.len() - i,
        {
            data.push(pk[i]);
            i = i + 1;
        }
        proof {
            assert(pk@.subrange(0, pk@.len() as int) == pk@);
        }
        SuiAddress { bytes: blake2b256(data.as_slice()) }
    }

    /// The 32 bytes of the address.
    pub fn as_bytes(&self) -> (r: &[u8])
        ensures
            r@ == self@,
    {
        self.bytes.as_slice()
    }

    /// A copy of this address.
    pub fn copy(&self) -> (r: SuiAddress)
        ensures
            r@ == self@,
    {
        SuiAddress { bytes: copy_bytes(&self.bytes) }
    }

    /// Whether two addresses hold the same bytes.
    pub fn same_as(&self, other: &SuiAddress) -> (r: bool)
        ensures
            r == (self@ == other@),
    {
        if self.bytes.len() != other.bytes.len() {
            return false;
        }
        let mut i: usize = 0;
        while i < self.bytes.len()
            invariant
                self.bytes@.len() == other.bytes@.len(),
                i <= self.bytes@.len(),
                forall|k: int| 0 <= k < i ==> self.bytes@[k] == other.bytes@[k],
            decreases self.bytes@.len() - i,
        {
            if self.bytes[i] != other.bytes[i] {
                return false;
            }
            i = i + 1;
        }
        proof {
            assert(self.bytes@ =~= other.bytes@);
        }
        true
    }
}

/// A copy of `b`.
fn copy_bytes(b: &Vec<u8>) -> (r: Vec<u8>)
    ensures
        r@ == b@,
{
    let mut out: Vec<u8> = Vec::new();
    let mut i: usize = 0;
    while i < b.len()
        invariant
            i <= b@.len(),
            out@ == b@.subrange(0, i as int),
        decreases b@.len() - i,
    {
        out.push(b[i]);
        i = i + 1;
    }
    proof {
        assert(b@.subrange(0, b@.len() as int) == b@);
    }
    out
}

} // verus!
