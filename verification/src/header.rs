use vstd::bytes::*;
use vstd::prelude::*;
use vstd::slice::slice_subrange;

use crate::status::ResponseStatus;
use crate::stream::InputStream;

verus! {

/// Protocol-family constant standing first in every frame, independent of
/// the wire protocol version.
pub const MAGIC_NUMBER: u32 = 0x5EC0_A710;

/// Supported wire protocol major version.
pub const WIRE_PROTOCOL_VERSION_MAJ: u8 = 1;

/// Supported wire protocol minor version.
pub const WIRE_PROTOCOL_VERSION_MIN: u8 = 0;

/// Declared header-content length fixed for version 1.0: the two version
/// bytes plus the 22 field bytes, not counting the magic number or the
/// length field itself.
pub const REQUEST_HDR_SIZE: u16 = 24;

/// Raw representation of a common request/response header, as defined for
/// the wire format: raw integers only, serialised little-endian with no
/// padding. This layer does not validate that the enumerated fields fall
/// within any known enumeration; that is an upstream concern.
#[derive(Copy, Clone, Debug, PartialEq, Eq, Structural)]
pub struct WireHeader {
    /// Provider ID value.
    pub provider: u8,
    /// Session handle.
    pub session: u64,
    /// Content type: defines how the request body should be processed.
    pub content_type: u8,
    /// Accept type: defines how the service should provide its response.
    pub accept_type: u8,
    /// Authentication type.
    pub auth_type: u8,
    /// Number of bytes of content.
    pub body_len: u32,
    /// Number of bytes of authentication.
    pub auth_len: u16,
    /// Opcode of the operation to perform.
    pub opcode: u16,
    /// Response status of the request.
    pub status: u16,
}

/// The 22 field bytes of a header: the nine fields in declared order,
/// fixed-width, little-endian, no padding.
pub open spec fn spec_field_bytes(h: WireHeader) -> Seq<u8> {
    seq![h.provider] + spec_u64_to_le_bytes(h.session) + seq![
        h.content_type,
        h.accept_type,
        h.auth_type,
    ] + spec_u32_to_le_bytes(h.body_len) + spec_u16_to_le_bytes(h.auth_len) + spec_u16_to_le_bytes(
        h.opcode,
    ) + spec_u16_to_le_bytes(h.status)
}

/// The full 30-byte frame written for a header: magic number, declared
/// content length, version bytes, then the field bytes.
pub open spec fn spec_frame(h: WireHeader) -> Seq<u8> {
    spec_u32_to_le_bytes(MAGIC_NUMBER) + spec_u16_to_le_bytes(REQUEST_HDR_SIZE) + seq![
        WIRE_PROTOCOL_VERSION_MAJ,
        WIRE_PROTOCOL_VERSION_MIN,
    ] + spec_field_bytes(h)
}

/// Whether the unread bytes `d` begin with the magic number.
pub open spec fn spec_magic_ok(d: Seq<u8>) -> bool {
    spec_u32_from_le_bytes(d.subrange(0, 4)) == MAGIC_NUMBER
}

/// The header-content length declared by the unread bytes `d`.
pub open spec fn spec_declared_len(d: Seq<u8>) -> int {
    spec_u16_from_le_bytes(d.subrange(4, 6)) as int
}

/// The header read from the field bytes of a frame that starts the unread
/// bytes `d`: the nine fields at offsets 8 through 29.
pub open spec fn spec_header_at(d: Seq<u8>) -> WireHeader {
    WireHeader {
        provider: d[8],
        session: spec_u64_from_le_bytes(d.subrange(9, 17)),
        content_type: d[17],
        accept_type: d[18],
        auth_type: d[19],
        body_len: spec_u32_from_le_bytes(d.subrange(20, 24)),
        auth_len: spec_u16_from_le_bytes(d.subrange(24, 26)),
        opcode: spec_u16_from_le_bytes(d.subrange(26, 28)),
        status: spec_u16_from_le_bytes(d.subrange(28, 30)),
    }
}

/// Outcome of decoding the unread bytes `d`: the gates in their fixed order.
/// A missing byte fails with a connection error; a wrong magic number or a
/// wrong declared length with an invalid header; wrong version bytes with an
/// unsupported version; otherwise the header is read from the field bytes.
pub open spec fn spec_decode(d: Seq<u8>) -> Result<WireHeader, ResponseStatus> {
    if d.len() < 4 {
        Err(ResponseStatus::ConnectionError)
    } else if !spec_magic_ok(d) {
        Err(ResponseStatus::InvalidHeader)
    } else if d.len() < 6 {
        Err(ResponseStatus::ConnectionError)
    } else if d.len() < 6 + spec_declared_len(d) {
        Err(ResponseStatus::ConnectionError)
    } else if spec_declared_len(d) != REQUEST_HDR_SIZE as int {
        Err(ResponseStatus::InvalidHeader)
    } else if d[6] != WIRE_PROTOCOL_VERSION_MAJ || d[7] != WIRE_PROTOCOL_VERSION_MIN {
        Err(ResponseStatus::WireProtocolVersionNotSupported)
    } else {
        Ok(spec_header_at(d))
    }
}

/// Count of bytes a decode call consumes from the unread bytes `d`. The
/// declared length is read in full even when it will prove wrong, so that
/// the stream stays byte-aligned for whatever recovery the caller attempts;
/// a read that cannot complete consumes nothing.
pub open spec fn spec_consumed(d: Seq<u8>) -> int {
    if d.len() < 4 {
        0
    } else if !spec_magic_ok(d) {
        4
    } else if d.len() < 6 {
        4
    } else if d.len() < 6 + spec_declared_len(d) {
        6
    } else {
        6 + spec_declared_len(d)
    }
}

/// Count of further bytes the decoder needs before it can reach a verdict on
/// the unread bytes `d`; zero once a verdict is in reach.
pub open spec fn spec_bytes_needed(d: Seq<u8>) -> int {
    if d.len() < 4 {
        4 - d.len()
    } else if !spec_magic_ok(d) {
        0
    } else if d.len() < 6 {
        6 - d.len()
    } else if d.len() < 6 + spec_declared_len(d) {
        6 + spec_declared_len(d) - d.len()
    } else {
        0
    }
}

impl WireHeader {
    /// Create a new raw wire header with every field zero.
    pub fn new() -> (h: WireHeader)
        ensures
            h == (WireHeader {
                provider: 0,
                session: 0,
                content_type: 0,
                accept_type: 0,
                auth_type: 0,
                body_len: 0,
                auth_len: 0,
                opcode: 0,
                status: 0,
            }),
    {
        WireHeader {
            provider: 0,
            session: 0,
            content_type: 0,
            accept_type: 0,
            auth_type: 0,
            body_len: 0,
            auth_len: 0,
            opcode: 0,
            status: 0,
        }
    }

    /// Serialise the header and append the corresponding frame bytes to the
    /// given output. The output capability is all-or-nothing, so the write
    /// always completes; the result mirrors the taxonomy the caller maps
    /// stream failures into.
    pub fn write_to_stream(&self, stream: &mut Vec<u8>) -> (r: Result<(), ResponseStatus>)
        ensures
            r == Ok::<(), ResponseStatus>(()),
            final(stream)@ == old(stream)@ + spec_frame(*self),
    {
        let mut magic = u32_to_le_bytes(MAGIC_NUMBER);
        stream.append(&mut magic);
        let mut size = u16_to_le_bytes(REQUEST_HDR_SIZE);
        stream.append(&mut size);
        stream.push(WIRE_PROTOCOL_VERSION_MAJ);
        stream.push(WIRE_PROTOCOL_VERSION_MIN);
        stream.push(self.provider);
        let mut session = u64_to_le_bytes(self.session);
        stream.append(&mut session);
        stream.push(self.content_type);
        stream.push(self.accept_type);
        stream.push(self.auth_type);
        let mut body_len = u32_to_le_bytes(self.body_len);
        stream.append(&mut body_len);
        let mut auth_len = u16_to_le_bytes(self.auth_len);
        stream.append(&mut auth_len);
        let mut opcode = u16_to_le_bytes(self.opcode);
        stream.append(&mut opcode);
        let mut status = u16_to_le_bytes(self.status);
        stream.append(&mut status);
        proof {
            assert(stream@ =~= old(stream)@ + spec_frame(*self));
        }
        Ok(())
    }

    /// Deserialise a header from the given input: the six gates in order.
    /// The magic number is checked first, before any length-driven read;
    /// then exactly the declared number of bytes is consumed, even when the
    /// declared length will prove wrong; then the declared length, the
    /// version bytes and the fields are checked in turn.
    pub fn read_from_stream(stream: &mut InputStream) -> (r: Result<WireHeader, ResponseStatus>)
        requires
            old(stream).wf(),
        ensures
            final(stream).wf(),
            final(stream).data@ == old(stream).data@,
            r == spec_decode(old(stream).unread()),
            final(stream).pos == old(stream).pos + spec_consumed(old(stream).unread()),
    {
        let ghost d = old(stream).unread();
        let magic_bytes = match stream.read_exact(4) {
            Ok(b) => b,
            Err(e) => {
                return Err(e);
            },
        };
        proof {
            assert(magic_bytes@ =~= d.subrange(0, 4));
        }
        let magic = u32_from_le_bytes(magic_bytes.as_slice());
        if magic != MAGIC_NUMBER {
            return Err(ResponseStatus::InvalidHeader);
        }
        let size_bytes = match stream.read_exact(2) {
            Ok(b) => b,
            Err(e) => {
                return Err(e);
            },
        };
        proof {
            assert(size_bytes@ =~= d.subrange(4, 6));
        }
        let hdr_size = u16_from_le_bytes(size_bytes.as_slice());
        let bytes = match stream.read_exact(hdr_size as usize) {
            Ok(b) => b,
            Err(e) => {
                return Err(e);
            },
        };
        proof {
            assert(bytes@ =~= d.subrange(6, 6 + spec_declared_len(d)));
        }
        if hdr_size != REQUEST_HDR_SIZE {
            return Err(ResponseStatus::InvalidHeader);
        }
        if bytes[0] != WIRE_PROTOCOL_VERSION_MAJ || bytes[1] != WIRE_PROTOCOL_VERSION_MIN {
            return Err(ResponseStatus::WireProtocolVersionNotSupported);
        }
        let header = WireHeader {
            provider: bytes[2],
            session: u64_from_le_bytes(slice_subrange(bytes.as_slice(), 3, 11)),
            content_type: bytes[11],
            accept_type: bytes[12],
            auth_type: bytes[13],
            body_len: u32_from_le_bytes(slice_subrange(bytes.as_slice(), 14, 18)),
            auth_len: u16_from_le_bytes(slice_subrange(bytes.as_slice(), 18, 20)),
            opcode: u16_from_le_bytes(slice_subrange(bytes.as_slice(), 20, 22)),
            status: u16_from_le_bytes(slice_subrange(bytes.as_slice(), 22, 24)),
        };
        proof {
            assert(bytes@.subrange(3, 11) =~= d.subrange(9, 17));
            assert(bytes@.subrange(14, 18) =~= d.subrange(20, 24));
            assert(bytes@.subrange(18, 20) =~= d.subrange(24, 26));
            assert(bytes@.subrange(20, 22) =~= d.subrange(26, 28));
            assert(bytes@.subrange(22, 24) =~= d.subrange(28, 30));
            assert(header == spec_header_at(d));
        }
        Ok(header)
    }
}

/// Count of further bytes the decoder needs from the underlying stream
/// before `WireHeader::read_from_stream` can reach a verdict on this input:
/// first the magic number, then the length field, then exactly the declared
/// number of bytes. Zero means a call will not fail with a connection error.
pub fn header_bytes_needed(stream: &InputStream) -> (n: usize)
    requires
        stream.wf(),
    ensures
        n == spec_bytes_needed(stream.unread()),
{
    let ghost d = stream.unread();
    let total = stream.data.len();
    let remaining = stream.remaining();
    proof {
        assert(stream.pos + remaining == total);
    }
    if remaining < 4 {
        return 4 - remaining;
    }
    let magic_slice = slice_subrange(stream.data.as_slice(), stream.pos, stream.pos + 4);
    proof {
        assert(magic_slice@ =~= d.subrange(0, 4));
    }
    let magic = u32_from_le_bytes(magic_slice);
    if magic != MAGIC_NUMBER {
        return 0;
    }
    if remaining < 6 {
        return 6 - remaining;
    }
    let size_slice = slice_subrange(stream.data.as_slice(), stream.pos + 4, stream.pos + 6);
    proof {
        assert(size_slice@ =~= d.subrange(4, 6));
    }
    let declared = u16_from_le_bytes(size_slice) as usize;
    if remaining < 6 + declared {
        return 6 + declared - remaining;
    }
    0
}

/// Shape of an encoded frame: 30 bytes that open with the magic number, the
/// fixed declared length and the supported version, and carry the header's
/// field bytes, so that reading them back yields the header.
pub proof fn lemma_frame_shape(h: WireHeader)
    ensures
        spec_frame(h).len() == 30,
        spec_magic_ok(spec_frame(h)),
        spec_declared_len(spec_frame(h)) == REQUEST_HDR_SIZE as int,
        spec_frame(h)[6] == WIRE_PROTOCOL_VERSION_MAJ,
        spec_frame(h)[7] == WIRE_PROTOCOL_VERSION_MIN,
        spec_header_at(spec_frame(h)) == h,
{
    lemma_auto_spec_u16_to_from_le_bytes();
    lemma_auto_spec_u32_to_from_le_bytes();
    lemma_auto_spec_u64_to_from_le_bytes();
    let f = spec_frame(h);
    assert(f.subrange(0, 4) =~= spec_u32_to_le_bytes(MAGIC_NUMBER));
    assert(f.subrange(4, 6) =~= spec_u16_to_le_bytes(REQUEST_HDR_SIZE));
    assert(f.subrange(9, 17) =~= spec_u64_to_le_bytes(h.session));
    assert(f.subrange(20, 24) =~= spec_u32_to_le_bytes(h.body_len));
    assert(f.subrange(24, 26) =~= spec_u16_to_le_bytes(h.auth_len));
    assert(f.subrange(26, 28) =~= spec_u16_to_le_bytes(h.opcode));
    assert(f.subrange(28, 30) =~= spec_u16_to_le_bytes(h.status));
}

/// Round trip: decoding an input that begins with the encoding of any
/// header — whatever its field values — yields that header back and
/// consumes exactly the 30 frame bytes.
pub proof fn lemma_round_trip(h: WireHeader, d: Seq<u8>)
    requires
        d.len() >= 30,
        d.subrange(0, 30) == spec_frame(h),
    ensures
        spec_decode(d) == Ok::<WireHeader, ResponseStatus>(h),
        spec_consumed(d) == 30,
{
    lemma_frame_shape(h);
    let f = spec_frame(h);
    assert forall|i: int| 0 <= i < 30 implies d[i] == f[i] by {
        assert(d.subrange(0, 30)[i] == d[i]);
    }
    assert(d.subrange(0, 4) =~= f.subrange(0, 4));
    assert(d.subrange(4, 6) =~= f.subrange(4, 6));
    assert(d.subrange(9, 17) =~= f.subrange(9, 17));
    assert(d.subrange(20, 24) =~= f.subrange(20, 24));
    assert(d.subrange(24, 26) =~= f.subrange(24, 26));
    assert(d.subrange(26, 28) =~= f.subrange(26, 28));
    assert(d.subrange(28, 30) =~= f.subrange(28, 30));
    assert(spec_header_at(d) == spec_header_at(f));
}

/// Magic-first ordering: an input that does not open with the magic number
/// fails with an invalid header after consuming just those four bytes, even
/// when everything after them would form a valid frame.
pub proof fn lemma_magic_first(d: Seq<u8>)
    requires
        d.len() >= 4,
        !spec_magic_ok(d),
    ensures
        spec_decode(d) == Err::<WireHeader, ResponseStatus>(ResponseStatus::InvalidHeader),
        spec_consumed(d) == 4,
{
}

/// Version gate: a frame with the right magic number and the right declared
/// length but any other version bytes fails as an unsupported version —
/// never as an invalid encoding — with the whole frame consumed.
pub proof fn lemma_version_gate(d: Seq<u8>)
    requires
        d.len() >= 30,
        spec_magic_ok(d),
        spec_declared_len(d) == REQUEST_HDR_SIZE as int,
        d[6] != WIRE_PROTOCOL_VERSION_MAJ || d[7] != WIRE_PROTOCOL_VERSION_MIN,
    ensures
        spec_decode(d) == Err::<WireHeader, ResponseStatus>(
            ResponseStatus::WireProtocolVersionNotSupported,
        ),
        spec_consumed(d) == 30,
{
}

/// Length gate: a frame that declares any length other than the fixed one
/// fails with an invalid header, after exactly the declared number of bytes
/// has been consumed beyond the magic number and the length field.
pub proof fn lemma_length_gate(d: Seq<u8>)
    requires
        d.len() >= 6 + spec_declared_len(d),
        spec_magic_ok(d),
        spec_declared_len(d) != REQUEST_HDR_SIZE as int,
    ensures
        spec_decode(d) == Err::<WireHeader, ResponseStatus>(ResponseStatus::InvalidHeader),
        spec_consumed(d) == 6 + spec_declared_len(d),
{
}

/// Truncation: decoding fails with a connection error exactly when the
/// input ends before the bytes the decoder still needs are available.
pub proof fn lemma_truncation(d: Seq<u8>)
    ensures
        spec_decode(d) == Err::<WireHeader, ResponseStatus>(ResponseStatus::ConnectionError)
            <==> spec_bytes_needed(d) > 0,
{
}

} // verus!
