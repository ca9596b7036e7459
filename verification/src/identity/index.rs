//! Fixed-width (512-bit) identity of one concrete logical index.

use vstd::prelude::*;
use crate::message::push_text;
use vstd::std_specs::cmp::PartialEqSpecImpl;

verus! {

/// Fixed width of an [`IndexId`] in bytes.
pub const INDEX_ID_BYTE_LEN: usize = 64;

/// Fixed width of an [`IndexId`] in bits.
pub const INDEX_ID_BIT_LEN: usize = INDEX_ID_BYTE_LEN * 8;

/// Stable identity of one concrete logical index: exactly 64 opaque bytes.
///
/// The bytes carry no structure of their own; equality and ordering are
/// those of the byte values.
#[derive(Clone, Copy, Debug, Eq, PartialOrd, Ord, Hash)]
pub struct IndexId([u8; INDEX_ID_BYTE_LEN]);

impl View for IndexId {
    type V = Seq<u8>;

    closed spec fn view(&self) -> Seq<u8> {
        self.0@
    }
}

impl IndexId {
    /// Returns the fixed number of bytes in an `IndexId`.
    pub fn byte_len() -> (n: usize)
        ensures
            n == INDEX_ID_BYTE_LEN,
            n == 64,
    {
        INDEX_ID_BYTE_LEN
    }

    /// Returns the fixed number of bits in an `IndexId`.
    pub fn bit_len() -> (n: usize)
        ensures
            n == INDEX_ID_BIT_LEN,
            n == 512,
    {
        INDEX_ID_BIT_LEN
    }

    /// Constructs an `IndexId` from its complete 64-byte value.
    pub fn from_bytes(bytes: [u8; INDEX_ID_BYTE_LEN]) -> (id: Self)
        ensures
            id@ == bytes@,
    {
        IndexId(bytes)
    }

    /// Returns the exact underlying 64-byte identity value.
    pub fn as_bytes(&self) -> (b: &[u8; INDEX_ID_BYTE_LEN])
        ensures
            b@ == self@,
    {
        &self.0
    }

    /// Consumes the identity and returns its exact underlying bytes.
    pub fn into_bytes(self) -> (b: [u8; INDEX_ID_BYTE_LEN])
        ensures
            b@ == self@,
    {
        self.0
    }
}

/// Byte-wise equality of two identity values.
fn identity_bytes_equal(a: &[u8; INDEX_ID_BYTE_LEN], b: &[u8; INDEX_ID_BYTE_LEN]) -> (r: bool)
    ensures
        r == (a@ == b@),
{
    let mut i: usize = 0;
    while i < INDEX_ID_BYTE_LEN
        invariant
            0 <= i <= INDEX_ID_BYTE_LEN,
            a@.len() == INDEX_ID_BYTE_LEN,
            b@.len() == INDEX_ID_BYTE_LEN,
            forall|j: int| 0 <= j < i ==> a@[j] == b@[j],
        decreases INDEX_ID_BYTE_LEN - i,
    {
        if a[i] != b[i] {
            return false;
        }
        i = i + 1;
    }
    assert(a@ =~= b@);
    true
}

impl PartialEq for IndexId {
    fn eq(&self, other: &Self) -> (r: bool) {
        identity_bytes_equal(&self.0, &other.0)
    }
}

impl PartialEqSpecImpl for IndexId {
    open spec fn obeys_eq_spec() -> bool {
        true
    }

    open spec fn eq_spec(&self, other: &Self) -> bool {
        self@ == other@
    }
}

impl AsRef<[u8; INDEX_ID_BYTE_LEN]> for IndexId {
    fn as_ref(&self) -> (r: &[u8; INDEX_ID_BYTE_LEN])
        ensures
            ({
                let bytes: &[u8; INDEX_ID_BYTE_LEN] = r;
                bytes@ == self@
            }),
    {
        &self.0
    }
}

impl AsRef<[u8]> for IndexId {
    fn as_ref(&self) -> (r: &[u8])
        ensures
            ({
                let bytes: &[u8] = r;
                bytes@ == self@
            }),
    {
        self.0.as_slice()
    }
}

/// Debug rendering of an index identity: its bytes in decimal.
pub open spec fn index_id_debug(b: Seq<u8>) -> Seq<char> {
    "IndexId(["@ + crate::message::byte_list_text(b) + "])"@
}

impl IndexId {
    /// Returns the identity rendered as its debug structure.
    pub fn debug_text(&self) -> (s: String)
        ensures
            s@ == index_id_debug(self@),
    {
        let mut s = String::new();
        push_text(&mut s, "IndexId([");
        crate::message::push_byte_list(&mut s, self.0.as_slice());
        push_text(&mut s, "])");
        assert(s@ =~= index_id_debug(self@));
        s
    }
}

} // verus!
