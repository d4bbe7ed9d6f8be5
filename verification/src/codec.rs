//! Fixed-width integers on the wire, read and written through `scroll`.
use scroll::Error as ScrollError;
use scroll::Pread;
use scroll::Pwrite;
use vstd::prelude::*;

verus! {

/// Byte order of multi-byte integers.
#[derive(Clone, Copy, Debug, PartialEq, Eq, Structural)]
pub enum Endian {
    Little,
    Big,
}

/// The unsigned 16-bit value of the two bytes of `s` at `i`.
pub open spec fn u16_at(s: Seq<u8>, i: int, e: Endian) -> int {
    match e {
        Endian::Little => s[i] + 256 * s[i + 1],
        Endian::Big => 256 * s[i] + s[i + 1],
    }
}

/// The unsigned 32-bit value of the four bytes of `s` at `i`.
pub open spec fn u32_at(s: Seq<u8>, i: int, e: Endian) -> int {
    match e {
        Endian::Little => s[i] + 256 * s[i + 1] + 65536 * s[i + 2] + 16777216 * s[i + 3],
        Endian::Big => 16777216 * s[i] + 65536 * s[i + 1] + 256 * s[i + 2] + s[i + 3],
    }
}

/// The two bytes that encode `v`.
pub open spec fn u16_bytes(v: u16, e: Endian) -> Seq<u8> {
    match e {
        Endian::Little => seq![(v % 256) as u8, (v / 256) as u8],
        Endian::Big => seq![(v / 256) as u8, (v % 256) as u8],
    }
}

/// The four bytes that encode `v`.
pub open spec fn u32_bytes(v: u32, e: Endian) -> Seq<u8> {
    let b0 = (v % 256) as u8;
    let b1 = ((v / 256) % 256) as u8;
    let b2 = ((v / 65536) % 256) as u8;
    let b3 = (v / 16777216) as u8;
    match e {
        Endian::Little => seq![b0, b1, b2, b3],
        Endian::Big => seq![b3, b2, b1, b0],
    }
}

/// `s` with the bytes from `i` on replaced by `w`.
pub open spec fn splice(s: Seq<u8>, i: int, w: Seq<u8>) -> Seq<u8> {
    s.take(i) + w + s.skip(i + w.len())
}

/// Reading back the bytes that encode a value gives the value.
pub proof fn lemma_u16_roundtrip(v: u16, e: Endian)
    ensures
        u16_bytes(v, e).len() == 2,
        u16_at(u16_bytes(v, e), 0, e) == v,
{
    assert(v == (v % 256) + 256 * (v / 256)) by (bit_vector);
    assert(v / 256 < 256) by (bit_vector);
}

/// Reading back the bytes that encode a value gives the value.
pub proof fn lemma_u32_roundtrip(v: u32, e: Endian)
    ensures
        u32_bytes(v, e).len() == 4,
        u32_at(u32_bytes(v, e), 0, e) == v,
{
    assert(v == (v % 256) + 256 * ((v / 256) % 256) + 65536 * ((v / 65536) % 256) + 16777216 * (
    v / 16777216)) by (bit_vector);
    assert(v / 16777216 < 256) by (bit_vector);
}

/// `scroll::Error`, the error of `scroll`'s reads and writes.
#[verifier::external_type_specification]
#[verifier::external_body]
pub struct ExScrollError(ScrollError);

/// Calls `scroll`'s `Pread::gread_with` for a `u8` on `src`. As its source shows, the
/// read succeeds exactly when a byte stands at `*offset`; it then returns that byte and
/// moves `offset` past it, and on failure leaves `offset` as it was.
#[verifier::external_body]
pub(crate) fn gread_u8(src: &[u8], offset: &mut usize, e: Endian) -> (r: Result<u8, ScrollError>)
    ensures
        r is Ok <==> *old(offset) + 1 <= src@.len(),
        r matches Ok(v) ==> v == src@[*old(offset) as int] && *final(offset) == *old(offset) + 1,
        r is Err ==> *final(offset) == *old(offset),
{
    let ctx = match e {
        Endian::Little => scroll::Endian::Little,
        Endian::Big => scroll::Endian::Big,
    };
    src.gread_with::<u8>(offset, ctx)
}

/// Calls `scroll`'s `Pread::gread_with` for a `u16` on `src`. As its source shows, the
/// read succeeds exactly when two bytes stand from `*offset` on; it then returns their
/// value in byte order `e` and moves `offset` past them, and on failure leaves `offset`.
#[verifier::external_body]
pub(crate) fn gread_u16(src: &[u8], offset: &mut usize, e: Endian) -> (r: Result<u16, ScrollError>)
    ensures
        r is Ok <==> *old(offset) + 2 <= src@.len(),
        r matches Ok(v) ==> v == u16_at(src@, *old(offset) as int, e) && *final(offset) == *old(
            offset,
        ) + 2,
        r is Err ==> *final(offset) == *old(offset),
{
    let ctx = match e {
        Endian::Little => scroll::Endian::Little,
        Endian::Big => scroll::Endian::Big,
    };
    src.gread_with::<u16>(offset, ctx)
}

/// Calls `scroll`'s `Pread::gread_with` for a `u32` on `src`. As its source shows, the
/// read succeeds exactly when four bytes stand from `*offset` on; it then returns their
/// value in byte order `e` and moves `offset` past them, and on failure leaves `offset`.
#[verifier::external_body]
pub(crate) fn gread_u32(src: &[u8], offset: &mut usize, e: Endian) -> (r: Result<u32, ScrollError>)
    ensures
        r is Ok <==> *old(offset) + 4 <= src@.len(),
        r matches Ok(v) ==> v == u32_at(src@, *old(offset) as int, e) && *final(offset) == *old(
            offset,
        ) + 4,
        r is Err ==> *final(offset) == *old(offset),
{
    let ctx = match e {
        Endian::Little => scroll::Endian::Little,
        Endian::Big => scroll::Endian::Big,
    };
    src.gread_with::<u32>(offset, ctx)
}

/// Calls `scroll`'s `Pread::gread_inout_with` to fill `out` with bytes of `src`. As its
/// source shows, it reads one element after the other with `gread_with`; when all of
/// them fit, `out` holds the bytes of `src` from `*offset` on and `offset` moves past
/// them. Of a failed call only the length of `out` is stated. Only an `offset` within
/// `src` is admitted.
#[verifier::external_body]
pub(crate) fn gread_inout_u8(src: &[u8], offset: &mut usize, out: &mut Vec<u8>, e: Endian) -> (r:
    Result<(), ScrollError>)
    requires
        *old(offset) <= src@.len(),
    ensures
        final(out)@.len() == old(out)@.len(),
        r is Ok <==> *old(offset) + old(out)@.len() <= src@.len(),
        r is Ok ==> final(out)@ == src@.subrange(
            *old(offset) as int,
            *old(offset) + old(out)@.len(),
        ) && *final(offset) == *old(offset) + old(out)@.len(),
{
    let ctx = match e {
        Endian::Little => scroll::Endian::Little,
        Endian::Big => scroll::Endian::Big,
    };
    src.gread_inout_with(offset, out.as_mut_slice(), ctx)
}

/// Calls `scroll`'s `Pread::gread_inout_with` to fill `out` with `u16` values of `src`.
/// As its source shows, it reads one element after the other with `gread_with`; when all
/// of them fit, element `i` is the value of the two bytes at `*offset + 2 * i` and
/// `offset` moves past them. Of a failed call only the length of `out` is stated. Only
/// an `offset` within `src` is admitted.
#[verifier::external_body]
pub(crate) fn gread_inout_u16(src: &[u8], offset: &mut usize, out: &mut Vec<u16>, e: Endian) -> (r:
    Result<(), ScrollError>)
    requires
        *old(offset) <= src@.len(),
    ensures
        final(out)@.len() == old(out)@.len(),
        r is Ok <==> *old(offset) + 2 * old(out)@.len() <= src@.len(),
        r is Ok ==> *final(offset) == *old(offset) + 2 * old(out)@.len() && forall|i: int|
            0 <= i < old(out)@.len() ==> #[trigger] final(out)@[i] == u16_at(
                src@,
                *old(offset) + 2 * i,
                e,
            ),
{
    let ctx = match e {
        Endian::Little => scroll::Endian::Little,
        Endian::Big => scroll::Endian::Big,
    };
    src.gread_inout_with(offset, out.as_mut_slice(), ctx)
}

/// Calls `scroll`'s `Pread::gread_inout_with` to fill `out` with `u32` values of `src`.
/// As its source shows, it reads one element after the other with `gread_with`; when all
/// of them fit, element `i` is the value of the four bytes at `*offset + 4 * i` and
/// `offset` moves past them. Of a failed call only the length of `out` is stated. Only
/// an `offset` within `src` is admitted.
#[verifier::external_body]
pub(crate) fn gread_inout_u32(src: &[u8], offset: &mut usize, out: &mut Vec<u32>, e: Endian) -> (r:
    Result<(), ScrollError>)
    requires
        *old(offset) <= src@.len(),
    ensures
        final(out)@.len() == old(out)@.len(),
        r is Ok <==> *old(offset) + 4 * old(out)@.len() <= src@.len(),
        r is Ok ==> *final(offset) == *old(offset) + 4 * old(out)@.len() && forall|i: int|
            0 <= i < old(out)@.len() ==> #[trigger] final(out)@[i] == u32_at(
                src@,
                *old(offset) + 4 * i,
                e,
            ),
{
    let ctx = match e {
        Endian::Little => scroll::Endian::Little,
        Endian::Big => scroll::Endian::Big,
    };
    src.gread_inout_with(offset, out.as_mut_slice(), ctx)
}

/// Calls `scroll`'s `Pwrite::gwrite_with` to write the byte `v` into `dst` at `*offset`.
/// As its source shows, the write succeeds exactly when the byte fits; it then returns 1,
/// replaces that byte and moves `offset` past it. A failed write changes nothing.
#[verifier::external_body]
pub(crate) fn gwrite_u8(dst: &mut Vec<u8>, v: u8, offset: &mut usize, e: Endian) -> (r: Result<
    usize,
    ScrollError,
>)
    ensures
        final(dst)@.len() == old(dst)@.len(),
        r is Ok <==> *old(offset) + 1 <= old(dst)@.len(),
        r matches Ok(n) ==> n == 1 && final(dst)@ == old(dst)@.update(
            *old(offset) as int,
            v,
        ) && *final(offset) == *old(offset) + 1,
        r is Err ==> final(dst)@ == old(dst)@ && *final(offset) == *old(offset),
{
    let ctx = match e {
        Endian::Little => scroll::Endian::Little,
        Endian::Big => scroll::Endian::Big,
    };
    dst.as_mut_slice().gwrite_with(v, offset, ctx)
}

/// Calls `scroll`'s `Pwrite::gwrite_with` to write the `u16` value `v` into `dst` at
/// `*offset`. As its source shows, the write succeeds exactly when two bytes fit; it then
/// returns 2, puts the bytes of `v` in byte order `e` there and moves `offset` past them.
/// A failed write changes nothing.
#[verifier::external_body]
pub(crate) fn gwrite_u16(dst: &mut Vec<u8>, v: u16, offset: &mut usize, e: Endian) -> (r: Result<
    usize,
    ScrollError,
>)
    ensures
        final(dst)@.len() == old(dst)@.len(),
        r is Ok <==> *old(offset) + 2 <= old(dst)@.len(),
        r matches Ok(n) ==> n == 2 && final(dst)@ == splice(
            old(dst)@,
            *old(offset) as int,
            u16_bytes(v, e),
        ) && *final(offset) == *old(offset) + 2,
        r is Err ==> final(dst)@ == old(dst)@ && *final(offset) == *old(offset),
{
    let ctx = match e {
        Endian::Little => scroll::Endian::Little,
        Endian::Big => scroll::Endian::Big,
    };
    dst.as_mut_slice().gwrite_with(v, offset, ctx)
}

/// Calls `scroll`'s `Pwrite::gwrite_with` to write the `u32` value `v` into `dst` at
/// `*offset`. As its source shows, the write succeeds exactly when four bytes fit; it
/// then returns 4, puts the bytes of `v` in byte order `e` there and moves `offset` past
/// them. A failed write changes nothing.
#[verifier::external_body]
pub(crate) fn gwrite_u32(dst: &mut Vec<u8>, v: u32, offset: &mut usize, e: Endian) -> (r: Result<
    usize,
    ScrollError,
>)
    ensures
        final(dst)@.len() == old(dst)@.len(),
        r is Ok <==> *old(offset) + 4 <= old(dst)@.len(),
        r matches Ok(n) ==> n == 4 && final(dst)@ == splice(
            old(dst)@,
            *old(offset) as int,
            u32_bytes(v, e),
        ) && *final(offset) == *old(offset) + 4,
        r is Err ==> final(dst)@ == old(dst)@ && *final(offset) == *old(offset),
{
    let ctx = match e {
        Endian::Little => scroll::Endian::Little,
        Endian::Big => scroll::Endian::Big,
    };
    dst.as_mut_slice().gwrite_with(v, offset, ctx)
}

/// `core::str::Utf8Error`, the error of `from_utf8`.
#[verifier::external_type_specification]
#[verifier::external_body]
pub struct ExUtf8Error(core::str::Utf8Error);

/// Calls `core::str::from_utf8`. As its documentation says, it succeeds exactly when the
/// bytes are well-formed UTF-8 (vstd's `valid_utf8`: no overlong forms, no surrogates,
/// nothing above U+10FFFF), and the text it returns is those same bytes, so its
/// characters are what they decode to (vstd's `decode_utf8`).
#[verifier::external_body]
pub(crate) fn from_utf8(bytes: &[u8]) -> (r: Result<&str, core::str::Utf8Error>)
    ensures
        r is Ok <==> vstd::utf8::valid_utf8(bytes@),
        r matches Ok(s) ==> s@ == vstd::utf8::decode_utf8(bytes@),
{
    core::str::from_utf8(bytes)
}

} // verus!
