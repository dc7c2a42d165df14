//! The multi service message: the frame in which actor messages travel between processes.
//!
//! The format is little endian:
//!
//! ```text
//! 16 bytes service id | 16 bytes connection id | 4 bytes encoding | serialized message
//! ```
//!
//! A null service id marks a message that carries an error for the peer. A null connection
//! id marks a send, which expects no response. A call carries a fresh connection id, and its
//! response carries the same connection id back.
use vstd::prelude::*;
use crate::bytes_le::{le_bytes, le_value, lemma_le_bytes_len, lemma_le_u32_round_trip, push_u32_le, read_u32_le};
use crate::remote::conn_id::ConnID;
use crate::remote::error::ThesRemoteErr;
use crate::remote::id_bytes::{bytes_equal, copy_all, copy_range};
use crate::remote::service_id::ServiceID;

verus! {

/// The length of the header that precedes the serialized message.
pub const HEADER_LEN: usize = 36;

/// The serialization codecs a message can be encoded with.
#[derive(Debug, Clone, Copy, PartialEq, Eq, Structural)]
pub enum Codecs {
    /// CBOR, with the code 0x51 that the multicodec table gives it.
    CBOR,
}

impl Codecs {
    /// The number that stands for the codec in the encoding field of a message.
    pub open spec fn wire_code(self) -> u32 {
        match self {
            Codecs::CBOR => 0x51,
        }
    }

    /// The number that stands for the codec in the encoding field of a message.
    pub fn code(&self) -> (res: u32)
        ensures
            res == self.wire_code(),
    {
        match self {
            Codecs::CBOR => 0x51,
        }
    }

    /// The codec for a number of the encoding field, or a `Deserialize` error for a number
    /// that stands for no known codec.
    pub fn from_code(code: u32) -> (res: Result<Codecs, ThesRemoteErr>)
        ensures
            res matches Ok(c) ==> c.wire_code() == code,
            res is Err <==> code != 0x51,
            res matches Err(e) ==> e@.0 == 1,
    {
        if code == 0x51 {
            Ok(Codecs::CBOR)
        } else {
            Err(ThesRemoteErr::deserialize("encoding of a multi service message"))
        }
    }
}

/// The bytes of a message made of its four parts.
pub open spec fn frame(sid: Seq<u8>, cid: Seq<u8>, codec: Codecs, mesg: Seq<u8>) -> Seq<u8> {
    sid + cid + le_bytes(codec.wire_code() as nat, 4) + mesg
}

/// A multi service message. It is a window on its bytes: the parts are read from the
/// header when asked for.
#[derive(Debug)]
pub struct MultiServiceImpl {
    bytes: Vec<u8>,
}

impl View for MultiServiceImpl {
    type V = Seq<u8>;

    closed spec fn view(&self) -> Seq<u8> {
        self.bytes@
    }
}

impl Clone for MultiServiceImpl {
    fn clone(&self) -> (res: Self)
        ensures
            res@ == self@,
    {
        MultiServiceImpl { bytes: copy_all(self.bytes.as_slice()) }
    }
}

impl PartialEq for MultiServiceImpl {
    fn eq(&self, other: &Self) -> (res: bool) {
        bytes_equal(self.bytes.as_slice(), other.bytes.as_slice())
    }
}

impl vstd::std_specs::cmp::PartialEqSpecImpl for MultiServiceImpl {
    open spec fn obeys_eq_spec() -> bool {
        true
    }

    open spec fn eq_spec(&self, other: &Self) -> bool {
        self@ == other@
    }
}

impl Eq for MultiServiceImpl {

}

impl MultiServiceImpl {
    /// Assemble a message: service id, connection id, the code of the encoding and the
    /// serialized message, one after the other.
    pub fn create(service: ServiceID, conn_id: ConnID, encoding: Codecs, mesg: Vec<u8>) -> (res:
        Self)
        ensures
            res@ == frame(service@, conn_id@, encoding, mesg@),
    {
        let mut bytes = service.into_bytes();
        let c = conn_id.into_bytes();
        let mut i: usize = 0;
        let ghost start = bytes@;
        while i < c.len()
            invariant
                i <= c@.len(),
                bytes@ == start + c@.subrange(0, i as int),
            decreases c@.len() - i,
        {
            bytes.push(c[i]);
            i = i + 1;
            assert(bytes@ =~= start + c@.subrange(0, i as int));
        }
        assert(c@.subrange(0, c@.len() as int) =~= c@);
        push_u32_le(&mut bytes, encoding.code());
        let ghost mid = bytes@;
        let mut j: usize = 0;
        while j < mesg.len()
            invariant
                j <= mesg@.len(),
                bytes@ == mid + mesg@.subrange(0, j as int),
            decreases mesg@.len() - j,
        {
            bytes.push(mesg[j]);
            j = j + 1;
            assert(bytes@ =~= mid + mesg@.subrange(0, j as int));
        }
        assert(mesg@.subrange(0, mesg@.len() as int) =~= mesg@);
        MultiServiceImpl { bytes }
    }

    /// The service id: the first sixteen bytes.
    pub fn service(&self) -> (res: Result<ServiceID, ThesRemoteErr>)
        requires
            self@.len() >= 16,
        ensures
            res matches Ok(s) && s@ == self@.subrange(0, 16),
    {
        ServiceID::try_from(copy_range(self.bytes.as_slice(), 0, 16))
    }

    /// The connection id: bytes sixteen to thirty two.
    pub fn conn_id(&self) -> (res: Result<ConnID, ThesRemoteErr>)
        requires
            self@.len() >= 32,
        ensures
            res matches Ok(c) && c@ == self@.subrange(16, 32),
    {
        ConnID::try_from(copy_range(self.bytes.as_slice(), 16, 32))
    }

    /// The codec of the serialized message, read from bytes thirty two to thirty six.
    pub fn encoding(&self) -> (res: Result<Codecs, ThesRemoteErr>)
        requires
            self@.len() >= HEADER_LEN,
        ensures
            res is Ok <==> le_value(self@.subrange(32, 36)) == 0x51,
            res matches Ok(c) ==> c.wire_code() == le_value(self@.subrange(32, 36)),
            res matches Err(e) ==> e@.0 == 1,
    {
        let code = read_u32_le(self.bytes.as_slice(), 32);
        Codecs::from_code(code)
    }

    /// The serialized message: everything after the header.
    pub fn mesg(&self) -> (res: Vec<u8>)
        requires
            self@.len() >= HEADER_LEN,
        ensures
            res@ == self@.subrange(HEADER_LEN as int, self@.len() as int),
    {
        copy_range(self.bytes.as_slice(), HEADER_LEN, self.bytes.len())
    }

    /// The length in bytes of the whole message.
    pub fn len(&self) -> (res: usize)
        ensures
            res == self@.len(),
    {
        self.bytes.len()
    }

    /// Take the bytes as they are, without a copy.
    pub fn from_bytes(bytes: Vec<u8>) -> (res: Self)
        ensures
            res@ == bytes@,
    {
        MultiServiceImpl { bytes }
    }

    /// The bytes of the message.
    pub fn into_bytes(self) -> (res: Vec<u8>)
        ensures
            res@ == self@,
    {
        self.bytes
    }
}

/// Reading back the parts of an assembled message gives the parts that went in, as long as
/// both identifiers are sixteen bytes long (as the null, seeded and random ones are).
pub proof fn law_frame_round_trip(sid: Seq<u8>, cid: Seq<u8>, codec: Codecs, mesg: Seq<u8>)
    requires
        sid.len() == 16,
        cid.len() == 16,
    ensures
        frame(sid, cid, codec, mesg).len() == HEADER_LEN + mesg.len(),
        frame(sid, cid, codec, mesg).subrange(0, 16) == sid,
        frame(sid, cid, codec, mesg).subrange(16, 32) == cid,
        le_value(frame(sid, cid, codec, mesg).subrange(32, 36)) == codec.wire_code(),
        frame(sid, cid, codec, mesg).subrange(
            HEADER_LEN as int,
            frame(sid, cid, codec, mesg).len() as int,
        ) == mesg,
{
    let f = frame(sid, cid, codec, mesg);
    let e = le_bytes(codec.wire_code() as nat, 4);
    lemma_le_bytes_len(codec.wire_code() as nat, 4);
    lemma_le_u32_round_trip(codec.wire_code());
    assert(f.subrange(0, 16) =~= sid);
    assert(f.subrange(16, 32) =~= cid);
    assert(f.subrange(32, 36) =~= e);
    assert(f.subrange(36, f.len() as int) =~= mesg);
}

} // verus!
