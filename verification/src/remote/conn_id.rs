//! The identifier of a connection: it matches responses to the calls sent earlier.
use vstd::prelude::*;
use crate::remote::error::ThesRemoteErr;
use crate::bytes_le::{le_bytes, push_u64_le};
use crate::remote::id_bytes::{
    random_u64, all_zero, bytes_all_zero, bytes_equal, copy_all, hashed_id, hashed_id_bytes, null_id,
    null_id_bytes, xxhash64, xxhash64_with_seed,
};
use crate::text::{hex_lower, push_hex};

verus! {

/// A connection identifier. This allows to match incoming packets to requests sent earlier.
///
/// It is 128 bits. Made by [`ConnID::default`] it is random data.
#[derive(Debug, Hash)]
pub struct ConnID {
    bytes: Vec<u8>,
}

impl View for ConnID {
    type V = Seq<u8>;

    closed spec fn view(&self) -> Seq<u8> {
        self.bytes@
    }
}

impl Clone for ConnID {
    fn clone(&self) -> (res: Self)
        ensures
            res@ == self@,
    {
        ConnID { bytes: copy_all(self.bytes.as_slice()) }
    }
}

/// Two identifiers are equal when they hold the same bytes.
impl PartialEq for ConnID {
    fn eq(&self, other: &Self) -> (res: bool) {
        bytes_equal(self.bytes.as_slice(), other.bytes.as_slice())
    }
}

impl vstd::std_specs::cmp::PartialEqSpecImpl for ConnID {
    open spec fn obeys_eq_spec() -> bool {
        true
    }

    open spec fn eq_spec(&self, other: &Self) -> bool {
        self@ == other@
    }
}

impl Eq for ConnID {

}

impl ConnID {
    /// Keeps the bytes as they are. This never fails.
    pub fn try_from(bytes: Vec<u8>) -> (res: Result<Self, ThesRemoteErr>)
        ensures
            res matches Ok(id) && id@ == bytes@,
    {
        Ok(ConnID { bytes })
    }

    /// The bytes of the identifier.
    pub fn into_bytes(self) -> (res: Vec<u8>)
        ensures
            res@ == self@,
    {
        self.bytes
    }

    /// The bytes of the identifier, borrowed.
    pub fn as_bytes(&self) -> (res: &[u8])
        ensures
            res@ == self@,
    {
        self.bytes.as_slice()
    }

    /// Writes two 64 bit numbers `a` and `b` in little endian after the bytes of `buf`
    /// and makes an identifier of it all.
    pub fn in_place_with(buf: Vec<u8>, a: u64, b: u64) -> (res: Self)
        ensures
            res@ == buf@ + le_bytes(a as nat, 8) + le_bytes(b as nat, 8),
    {
        let mut bytes = buf;
        push_u64_le(&mut bytes, a);
        push_u64_le(&mut bytes, b);
        ConnID { bytes }
    }

    /// Writes 128 random bits after the bytes of `buf` and makes an identifier of it all.
    pub fn in_place(buf: Vec<u8>) -> (res: Self)
        ensures
            exists|a: u64, b: u64| res@ == buf@ + le_bytes(a as nat, 8) + le_bytes(b as nat, 8),
    {
        let a = random_u64();
        let b = random_u64();
        ConnID::in_place_with(buf, a, b)
    }

    /// An identifier hashed from `data`: the 64 bit XxHash (seed zero) of `data`, in little
    /// endian, followed by eight zero bytes. Identical input always gives an identical
    /// identifier. Connection identifiers are usually random ([`ConnID::default`]); this one
    /// is for when a hashed one is wanted.
    pub fn from_seed(data: &[u8]) -> (res: Self)
        ensures
            res@ == hashed_id(xxhash64(0, data@)),
    {
        let h = xxhash64_with_seed(0, data);
        ConnID { bytes: hashed_id_bytes(h) }
    }

    /// The null identifier, sixteen zero bytes. It marks a message that carries an error.
    pub fn null() -> (res: Self)
        ensures
            res@ == null_id(),
            all_zero(res@),
    {
        ConnID { bytes: null_id_bytes() }
    }

    /// Whether every byte of the identifier is zero.
    pub fn is_null(&self) -> (res: bool)
        ensures
            res == all_zero(self@),
    {
        bytes_all_zero(self.bytes.as_slice())
    }

    /// The debug form of the identifier: every byte as two lower case hex digits.
    pub fn debug_string(&self) -> (res: String)
        ensures
            res@ == hex_lower(self@),
    {
        let mut s = String::new();
        push_hex(&mut s, self.bytes.as_slice());
        assert(s@ =~= hex_lower(self@));
        s
    }

    /// The display form of the identifier, the same as the debug form.
    pub fn to_string(&self) -> (res: String)
        ensures
            res@ == hex_lower(self@),
    {
        self.debug_string()
    }
}

/// Generate a random ConnID.
impl Default for ConnID {
    /// A random identifier of 128 bits.
    fn default() -> (res: Self)
        ensures
            exists|a: u64, b: u64| res@ == le_bytes(a as nat, 8) + le_bytes(b as nat, 8),
    {
        let res = ConnID::in_place(Vec::new());
        assert forall|a: u64, b: u64|
            Seq::<u8>::empty() + le_bytes(a as nat, 8) + le_bytes(b as nat, 8) =~= le_bytes(
                a as nat,
                8,
            ) + le_bytes(b as nat, 8) by {}
        res
    }

}

} // verus!
