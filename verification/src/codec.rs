//! The binary encoding of an update request.
//!
//! A request is laid out as a tagged, length-prefixed record:
//!
//! | offset      | bytes | meaning                                   |
//! |-------------|-------|-------------------------------------------|
//! | `0`         | 1     | tag byte, [`REQUEST_TAG`]                 |
//! | `1..5`      | 4     | little-endian length `n` of the address   |
//! | `5..5+n`    | `n`   | encoded account identifier                |
//! | `5+n..`     | rest  | further request fields, opaque here       |
//!
//! Trailing bytes after the address are carried through unmodified, so the
//! request type stays extensible: this handler reads only what identifies the
//! target account.

use vstd::prelude::*;

use crate::envelope::DecodeReason;
use crate::envelope::UpdateRequest;

verus! {

/// Tag byte that identifies an update request.
pub const REQUEST_TAG: u8 = 1;

/// The value of four little-endian bytes.
pub open spec fn le32(b: Seq<u8>) -> int
    recommends
        b.len() == 4,
{
    b[0] + b[1] * 0x100 + b[2] * 0x1_0000 + b[3] * 0x100_0000
}

/// The four little-endian bytes of a value below `2^32`.
pub open spec fn le32_bytes(n: int) -> Seq<u8>
    recommends
        0 <= n <= u32::MAX,
{
    seq![
        (n % 0x100) as u8,
        ((n / 0x100) % 0x100) as u8,
        ((n / 0x1_0000) % 0x100) as u8,
        ((n / 0x100_0000) % 0x100) as u8,
    ]
}

/// The address length that a well-formed payload declares.
pub open spec fn declared_addr_len(bytes: Seq<u8>) -> int
    recommends
        bytes.len() >= 5,
{
    le32(bytes.subrange(1, 5))
}

/// What a payload decodes to: the address bytes and the opaque tail on
/// success, or the exact reason the bytes do not conform to the encoding.
pub open spec fn spec_decode(bytes: Seq<u8>) -> Result<(Seq<u8>, Seq<u8>), DecodeReason> {
    if bytes.len() == 0 {
        Result::Err(DecodeReason::UnexpectedEnd)
    } else if bytes[0] != REQUEST_TAG {
        Result::Err(DecodeReason::InvalidTag)
    } else if bytes.len() < 5 || bytes.len() < 5 + declared_addr_len(bytes) {
        Result::Err(DecodeReason::UnexpectedEnd)
    } else {
        Result::Ok(
            (
                bytes.subrange(5, 5 + declared_addr_len(bytes)),
                bytes.subrange(5 + declared_addr_len(bytes), bytes.len() as int),
            ),
        )
    }
}

/// The encoding of a request with the given address and opaque tail.
pub open spec fn spec_encode(addr: Seq<u8>, opaque: Seq<u8>) -> Seq<u8>
    recommends
        addr.len() <= u32::MAX,
{
    seq![REQUEST_TAG] + le32_bytes(addr.len() as int) + addr + opaque
}

/// Copies the byte range `[from, to)` out of `bytes`.
fn copy_range(bytes: &Vec<u8>, from: usize, to: usize) -> (r: Vec<u8>)
    requires
        from <= to <= bytes@.len(),
    ensures
        r@ == bytes@.subrange(from as int, to as int),
{
    let mut out: Vec<u8> = Vec::new();
    proof {
        assert(out@ =~= bytes@.subrange(from as int, from as int));
    }
    let mut i: usize = from;
    while i < to
        invariant
            from <= i <= to <= bytes@.len(),
            out@ == bytes@.subrange(from as int, i as int),
        decreases to - i,
    {
        let b = bytes[i];
        out.push(b);
        proof {
            assert(out@ =~= bytes@.subrange(from as int, i as int + 1));
        }
        i = i + 1;
    }
    out
}

/// Parses a payload as an update request.
///
/// Succeeds exactly on the payloads that conform to the encoding, returning
/// the declared address bytes and the opaque tail; otherwise reports the
/// reason given by [`spec_decode`].
pub fn decode_update_request(bytes: &Vec<u8>) -> (r: Result<UpdateRequest, DecodeReason>)
    ensures
        match r {
            Result::Ok(req) => spec_decode(bytes@) == Result::<(Seq<u8>, Seq<u8>), DecodeReason>::Ok(
                (req.addr@, req.opaque@),
            ),
            Result::Err(reason) => spec_decode(bytes@) == Result::<
                (Seq<u8>, Seq<u8>),
                DecodeReason,
            >::Err(reason),
        },
{
    let len: usize = bytes.len();
    if len == 0 {
        return Result::Err(DecodeReason::UnexpectedEnd);
    }
    if bytes[0] != REQUEST_TAG {
        return Result::Err(DecodeReason::InvalidTag);
    }
    if len < 5 {
        return Result::Err(DecodeReason::UnexpectedEnd);
    }
    let n: u64 = bytes[1] as u64 + (bytes[2] as u64) * 0x100 + (bytes[3] as u64) * 0x1_0000 + (
    bytes[4] as u64) * 0x100_0000;
    proof {
        assert(bytes@.subrange(1, 5)[0] == bytes@[1]);
        assert(bytes@.subrange(1, 5)[1] == bytes@[2]);
        assert(bytes@.subrange(1, 5)[2] == bytes@[3]);
        assert(bytes@.subrange(1, 5)[3] == bytes@[4]);
        assert(n == declared_addr_len(bytes@));
    }
    if ((len - 5) as u64) < n {
        return Result::Err(DecodeReason::UnexpectedEnd);
    }
    let n_us: usize = n as usize;
    let addr = copy_range(bytes, 5, 5 + n_us);
    let opaque = copy_range(bytes, 5 + n_us, len);
    Result::Ok(UpdateRequest { addr, opaque })
}

/// Serializes a request in the encoding that [`decode_update_request`]
/// accepts.  The address must fit the four-byte length field.
pub fn encode_update_request(req: &UpdateRequest) -> (r: Vec<u8>)
    requires
        req.addr@.len() <= u32::MAX,
    ensures
        r@ == spec_encode(req.addr@, req.opaque@),
{
    let addr_len: usize = req.addr.len();
    let n: u32 = addr_len as u32;
    let mut out: Vec<u8> = Vec::new();
    out.push(REQUEST_TAG);
    out.push((n % 0x100) as u8);
    out.push(((n / 0x100) % 0x100) as u8);
    out.push(((n / 0x1_0000) % 0x100) as u8);
    out.push(((n / 0x100_0000) % 0x100) as u8);
    let mut addr_copy = copy_range(&req.addr, 0, addr_len);
    out.append(&mut addr_copy);
    let opaque_len: usize = req.opaque.len();
    let mut opaque_copy = copy_range(&req.opaque, 0, opaque_len);
    out.append(&mut opaque_copy);
    proof {
        assert(req.addr@.subrange(0, addr_len as int) =~= req.addr@);
        assert(req.opaque@.subrange(0, opaque_len as int) =~= req.opaque@);
        assert(out@ =~= spec_encode(req.addr@, req.opaque@));
    }
    out
}

/// Reading four little-endian bytes undoes writing them.
pub proof fn lemma_le32_round_trip(n: int)
    requires
        0 <= n <= u32::MAX,
    ensures
        le32(le32_bytes(n)) == n,
{
    let m = n as u32;
    assert((m % 0x100) + (m / 0x100 % 0x100) * 0x100 + (m / 0x1_0000 % 0x100) * 0x1_0000 + (m
        / 0x100_0000 % 0x100) * 0x100_0000 == m) by (bit_vector);
}

/// Decoding inverts encoding: a request whose address fits the length field
/// decodes from its own encoding to the same address and the same opaque
/// tail.
pub proof fn lemma_encode_decode(addr: Seq<u8>, opaque: Seq<u8>)
    requires
        addr.len() <= u32::MAX,
    ensures
        spec_decode(spec_encode(addr, opaque)) == Result::<(Seq<u8>, Seq<u8>), DecodeReason>::Ok(
            (addr, opaque),
        ),
{
    let e = spec_encode(addr, opaque);
    assert(e.len() == 5 + addr.len() + opaque.len());
    assert(e[0] == REQUEST_TAG);
    assert(e.subrange(1, 5) =~= le32_bytes(addr.len() as int));
    lemma_le32_round_trip(addr.len() as int);
    assert(declared_addr_len(e) == addr.len());
    assert(e.subrange(5, 5 + addr.len() as int) =~= addr);
    assert(e.subrange(5 + addr.len() as int, e.len() as int) =~= opaque);
}

} // verus!
