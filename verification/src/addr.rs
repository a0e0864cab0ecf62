use vstd::prelude::*;

verus! {

/// The byte length of an account address on the ledger.
pub const ADDRESS_LEN: usize = 32;

/// The byte length of a transaction signature on the ledger.
pub const SIGNATURE_LEN: usize = 64;

/// A 32-byte account address (a market, trader, or mint key), held as plain
/// bytes so that contracts can speak of its exact value.
#[derive(Clone, Debug, PartialEq, Eq)]
pub struct Address {
    bytes: Vec<u8>,
}

impl View for Address {
    type V = Seq<u8>;

    closed spec fn view(&self) -> Seq<u8> {
        self.bytes@
    }
}

impl Address {
    /// The address is exactly 32 bytes long.
    pub open spec fn wf(&self) -> bool {
        self@.len() == ADDRESS_LEN
    }

    /// Wraps 32 raw bytes as an address.
    pub fn from_bytes(bytes: Vec<u8>) -> (r: Address)
        requires
            bytes@.len() == ADDRESS_LEN,
        ensures
            r.wf(),
            r@ == bytes@,
    {
        Address { bytes }
    }

    /// The raw bytes of the address.
    pub fn as_bytes(&self) -> (r: &Vec<u8>)
        ensures
            r@ == self@,
    {
        &self.bytes
    }

    /// A fresh address with the same bytes.
    pub fn duplicate(&self) -> (r: Address)
        ensures
            r@ == self@,
            self.wf() ==> r.wf(),
    {
        Address { bytes: copy_bytes(&self.bytes) }
    }

    /// Whether two addresses hold the same bytes.
    pub fn equals(&self, other: &Address) -> (r: bool)
        ensures
            r == (self@ == other@),
    {
        bytes_equal(&self.bytes, &other.bytes)
    }
}

/// A 64-byte transaction signature, used as the polling cursor.
#[derive(Clone, Debug, PartialEq, Eq)]
pub struct TxSignature {
    bytes: Vec<u8>,
}

impl View for TxSignature {
    type V = Seq<u8>;

    closed spec fn view(&self) -> Seq<u8> {
        self.bytes@
    }
}

impl TxSignature {
    /// The signature is exactly 64 bytes long.
    pub open spec fn wf(&self) -> bool {
        self@.len() == SIGNATURE_LEN
    }

    /// Wraps 64 raw bytes as a signature.
    pub fn from_bytes(bytes: Vec<u8>) -> (r: TxSignature)
        requires
            bytes@.len() == SIGNATURE_LEN,
        ensures
            r.wf(),
            r@ == bytes@,
    {
        TxSignature { bytes }
    }

    /// The raw bytes of the signature.
    pub fn as_bytes(&self) -> (r: &Vec<u8>)
        ensures
            r@ == self@,
    {
        &self.bytes
    }

    /// A fresh signature with the same bytes.
    pub fn duplicate(&self) -> (r: TxSignature)
        ensures
            r@ == self@,
            self.wf() ==> r.wf(),
    {
        TxSignature { bytes: copy_bytes(&self.bytes) }
    }

    /// Whether two signatures hold the same bytes.
    pub fn equals(&self, other: &TxSignature) -> (r: bool)
        ensures
            r == (self@ == other@),
    {
        bytes_equal(&self.bytes, &other.bytes)
    }
}

/// A fresh vector holding the same bytes as `src`.
fn copy_bytes(src: &Vec<u8>) -> (r: Vec<u8>)
    ensures
        r@ == src@,
{
    let mut out: Vec<u8> = Vec::new();
    let mut i: usize = 0;
    while i < src.len()
        invariant
            i <= src@.len(),
            out@ == src@.subrange(0, i as int),
        decreases src@.len() - i,
    {
        out.push(src[i]);
        proof {
            assert(out@ =~= src@.subrange(0, i + 1 as int));
        }
        i = i + 1;
    }
    proof {
        assert(out@ =~= src@);
    }
    out
}

/// Whether two byte vectors hold the same bytes.
fn bytes_equal(a: &Vec<u8>, b: &Vec<u8>) -> (r: bool)
    ensures
        r == (a@ == b@),
{
    if a.len() != b.len() {
        proof {
            assert(a@ != b@);
        }
        return false;
    }
    let mut i: usize = 0;
    while i < a.len()
        invariant
            i <= a@.len(),
            a@.len() == b@.len(),
            forall|j: int| 0 <= j < i ==> a@[j] == b@[j],
        decreases a@.len() - i,
    {
        if a[i] != b[i] {
            proof {
                assert(a@[i as int] != b@[i as int]);
            }
            return false;
        }
        i = i + 1;
    }
    proof {
        assert(a@ =~= b@);
    }
    true
}

} // verus!
