//! The identifier of a service that is exposed to other processes.
use vstd::prelude::*;
use crate::remote::error::ThesRemoteErr;
use crate::remote::id_bytes::{
    all_zero, bytes_all_zero, bytes_equal, copy_all, hashed_id, hashed_id_bytes, null_id,
    null_id_bytes, xxhash64, xxhash64_with_seed,
};
use crate::text::{hex_lower, push_hex};

verus! {

/// A unique identifier for a service that is exposed to other processes. This allows
/// identifying the type to which the payload needs to be deserialized and the actor to which
/// a message is to be delivered.
///
/// The wire format asks for 128 bits, but the hash used for seeds gives 64 bits, so the
/// identifiers made by [`ServiceID::from_seed`] end in eight zero bytes.
#[derive(Debug, Hash)]
pub struct ServiceID {
    bytes: Vec<u8>,
}

impl View for ServiceID {
    type V = Seq<u8>;

    closed spec fn view(&self) -> Seq<u8> {
        self.bytes@
    }
}

impl Clone for ServiceID {
    fn clone(&self) -> (res: Self)
        ensures
            res@ == self@,
    {
        ServiceID { bytes: copy_all(self.bytes.as_slice()) }
    }
}

/// Two identifiers are equal when they hold the same bytes.
impl PartialEq for ServiceID {
    fn eq(&self, other: &Self) -> (res: bool) {
        bytes_equal(self.bytes.as_slice(), other.bytes.as_slice())
    }
}

impl vstd::std_specs::cmp::PartialEqSpecImpl for ServiceID {
    open spec fn obeys_eq_spec() -> bool {
        true
    }

    open spec fn eq_spec(&self, other: &Self) -> bool {
        self@ == other@
    }
}

impl Eq for ServiceID {

}

impl ServiceID {
    /// Keeps the bytes as they are. This never fails.
    pub fn try_from(bytes: Vec<u8>) -> (res: Result<Self, ThesRemoteErr>)
        ensures
            res matches Ok(id) && id@ == bytes@,
    {
        Ok(ServiceID { bytes })
    }

    /// The bytes of the identifier.
    pub fn into_bytes(self) -> (res: Vec<u8>)
        ensures
            res@ == self@,
    {
        self.bytes
    }

    /// The bytes of the identifier, borrowed.
    pub fn as_bytes(&self) -> (res: &[u8])
        ensures
            res@ == self@,
    {
        self.bytes.as_slice()
    }

    /// Seed the identifier: the 64 bit XxHash (seed zero) of `data`, in little endian,
    /// followed by eight zero bytes. Identical input always gives an identical identifier.
    pub fn from_seed(data: &[u8]) -> (res: Self)
        ensures
            res@ == hashed_id(xxhash64(0, data@)),
    {
        let h = xxhash64_with_seed(0, data);
        ServiceID { bytes: hashed_id_bytes(h) }
    }

    /// The null identifier, sixteen zero bytes. It marks a message that carries an error.
    pub fn null() -> (res: Self)
        ensures
            res@ == null_id(),
            all_zero(res@),
    {
        ServiceID { bytes: null_id_bytes() }
    }

    /// Whether every byte of the identifier is zero.
    pub fn is_null(&self) -> (res: bool)
        ensures
            res == all_zero(self@),
    {
        bytes_all_zero(self.bytes.as_slice())
    }

    /// The debug form of the identifier: every byte as two lower case hex digits.
    pub fn debug_string(&self) -> (res: String)
        ensures
            res@ == hex_lower(self@),
    {
        let mut s = String::new();
        push_hex(&mut s, self.bytes.as_slice());
        assert(s@ =~= hex_lower(self@));
        s
    }

    /// The display form of the identifier, the same as the debug form.
    pub fn to_string(&self) -> (res: String)
        ensures
            res@ == hex_lower(self@),
    {
        self.debug_string()
    }
}

/// Seeding is deterministic: identical input always gives an identical identifier (a service
/// id from [`ServiceID::from_seed`] or a connection id from `ConnID::from_seed`, which hash
/// alike), and it is sixteen bytes long, the size the wire format gives an identifier, its
/// last eight bytes zero.
pub proof fn law_seed_gives_same_id(data1: Seq<u8>, data2: Seq<u8>)
    requires
        data1 == data2,
    ensures
        hashed_id(xxhash64(0, data1)) == hashed_id(xxhash64(0, data2)),
        hashed_id(xxhash64(0, data1)).len() == 16,
        hashed_id(xxhash64(0, data1)).subrange(8, 16) == seq![0u8, 0, 0, 0, 0, 0, 0, 0],
{
    crate::remote::id_bytes::lemma_hashed_id_len(xxhash64(0, data1));
}

} // verus!
