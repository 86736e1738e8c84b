//! PNG framing for the app icon: chunks with CRC-32 checks around a
//! zlib-compressed RGBA image.

use vstd::prelude::*;

verus! {

/// One step of the reflected CRC-32 (polynomial 0xEDB88320) on one bit.
pub open spec fn crc_bit(c: u32) -> u32 {
    if c & 1 != 0 {
        (c >> 1) ^ 0xEDB88320u32
    } else {
        c >> 1
    }
}

/// `k` bit steps applied to `c`.
pub open spec fn crc_bits(c: u32, k: nat) -> u32
    decreases k,
{
    if k == 0 {
        c
    } else {
        crc_bit(crc_bits(c, (k - 1) as nat))
    }
}

/// The CRC register after `data`, starting from `c`.
pub open spec fn crc_update(c: u32, data: Seq<u8>) -> u32
    decreases data.len(),
{
    if data.len() == 0 {
        c
    } else {
        crc_bits(crc_update(c, data.drop_last()) ^ (data.last() as u32), 8)
    }
}

/// CRC-32 as PNG uses it: register starts all ones, result inverted.
pub open spec fn spec_crc32(data: Seq<u8>) -> u32 {
    !crc_update(0xFFFF_FFFFu32, data)
}

/// CRC-32 of `data`.
pub fn crc32(data: &[u8]) -> (crc: u32)
    ensures
        crc == spec_crc32(data@),
{
    let mut crc: u32 = 0xFFFF_FFFF;
    let mut i: usize = 0;
    while i < data.len()
        invariant
            i <= data.len(),
            crc == crc_update(0xFFFF_FFFFu32, data@.take(i as int)),
        decreases data.len() - i,
    {
        assert(data@.take(i + 1).drop_last() =~= data@.take(i as int));
        crc = crc ^ (data[i] as u32);
        let ghost start = crc;
        let mut k: usize = 0;
        while k < 8
            invariant
                k <= 8,
                crc == crc_bits(start, k as nat),
            decreases 8 - k,
        {
            if crc & 1 != 0 {
                crc = (crc >> 1) ^ 0xEDB88320;
            } else {
                crc = crc >> 1;
            }
            k = k + 1;
        }
        i = i + 1;
    }
    assert(data@.take(i as int) =~= data@);
    !crc
}

/// `n` as four big-endian bytes.
pub open spec fn be32(n: u32) -> Seq<u8> {
    seq![(n / 0x100_0000) as u8, ((n / 0x1_0000) % 0x100) as u8, ((n / 0x100) % 0x100) as u8, (n % 0x100) as u8]
}

fn push_be32(out: &mut Vec<u8>, n: u32)
    ensures
        final(out)@ == old(out)@ + be32(n),
{
    out.push((n / 0x100_0000) as u8);
    out.push(((n / 0x1_0000) % 0x100) as u8);
    out.push(((n / 0x100) % 0x100) as u8);
    out.push((n % 0x100) as u8);
    assert(final(out)@ =~= old(out)@ + be32(n));
}

fn push_all(out: &mut Vec<u8>, data: &[u8])
    ensures
        final(out)@ == old(out)@ + data@,
{
    let mut i: usize = 0;
    while i < data.len()
        invariant
            i <= data.len(),
            out@ == old(out)@ + data@.take(i as int),
        decreases data.len() - i,
    {
        out.push(data[i]);
        assert(out@ =~= old(out)@ + data@.take(i + 1));
        i = i + 1;
    }
    assert(data@.take(i as int) =~= data@);
}

/// A PNG chunk: data length (big-endian, truncated to 32 bits), type, data,
/// and the CRC-32 of type and data.
pub open spec fn spec_chunk(chunk_type: Seq<u8>, data: Seq<u8>) -> Seq<u8> {
    be32(data.len() as u32) + chunk_type + data + be32(spec_crc32(chunk_type + data))
}

/// Appends one PNG chunk to `out`.
pub fn write_png_chunk(out: &mut Vec<u8>, chunk_type: &[u8; 4], data: &[u8])
    ensures
        final(out)@ == old(out)@ + spec_chunk(chunk_type@, data@),
{
    push_be32(out, data.len() as u32);
    push_all(out, chunk_type.as_slice());
    push_all(out, data);
    let mut crc_data: Vec<u8> = Vec::new();
    push_all(&mut crc_data, chunk_type.as_slice());
    push_all(&mut crc_data, data);
    let crc = crc32(crc_data.as_slice());
    push_be32(out, crc);
    assert(final(out)@ =~= old(out)@ + spec_chunk(chunk_type@, data@));
}

/// The bytes that `flate2`'s zlib encoder at the fast compression level
/// produces for `raw`.
pub uninterp spec fn zlib_fast(raw: Seq<u8>) -> Seq<u8>;

/// Compresses `raw` with `flate2::write::ZlibEncoder` at
/// `Compression::fast()` into a `Vec<u8>`; the compressed bytes are those
/// of `zlib_fast`. With flate2's default (miniz_oxide) backend writing to a
/// `Vec` this does not fail: the output buffer always has room after each
/// drain, so the only error statuses of `deflate` (a bad parameter after a
/// finished stream, and `PutBufFailed`, which needs a custom callback) are
/// not reached, and writing to a `Vec` cannot fail.
#[verifier::external_body]
fn zlib_compress_fast(raw: &[u8]) -> (r: Option<Vec<u8>>)
    ensures
        r is Some,
        r matches Some(c) ==> c@ == zlib_fast(raw@),
{
    let mut encoder = flate2::write::ZlibEncoder::new(Vec::new(), flate2::Compression::fast());
    match std::io::Write::write_all(&mut encoder, raw) {
        Ok(()) => {},
        Err(_) => return None,
    }
    match encoder.finish() {
        Ok(v) => Some(v),
        Err(_) => None,
    }
}

/// The PNG signature.
pub open spec fn png_signature() -> Seq<u8> {
    seq![0x89u8, 0x50, 0x4e, 0x47, 0x0d, 0x0a, 0x1a, 0x0a]
}

/// A square 8-bit RGBA PNG of side `size` whose image data is `idat`.
pub open spec fn spec_png(size: u32, idat: Seq<u8>) -> Seq<u8> {
    png_signature()
        + spec_chunk(seq![73u8, 72, 68, 82], be32(size) + be32(size) + seq![8u8, 6, 0, 0, 0])
        + spec_chunk(seq![73u8, 68, 65, 84], idat)
        + spec_chunk(seq![73u8, 69, 78, 68], Seq::empty())
}

/// The PNG of a `size` x `size` 8-bit RGBA image whose compressed image
/// data is `idat`: signature, `IHDR`, one `IDAT` chunk, `IEND`.
pub fn png_from_idat(size: u32, idat: &[u8]) -> (png: Vec<u8>)
    ensures
        png@ == spec_png(size, idat@),
{
    let mut png: Vec<u8> = Vec::new();
    let sig: [u8; 8] = [0x89, 0x50, 0x4e, 0x47, 0x0d, 0x0a, 0x1a, 0x0a];
    push_all(&mut png, sig.as_slice());
    let mut ihdr: Vec<u8> = Vec::new();
    push_be32(&mut ihdr, size);
    push_be32(&mut ihdr, size);
    let depth: [u8; 5] = [8, 6, 0, 0, 0];
    push_all(&mut ihdr, depth.as_slice());
    let t_ihdr: [u8; 4] = [73, 72, 68, 82];
    write_png_chunk(&mut png, &t_ihdr, ihdr.as_slice());
    let t_idat: [u8; 4] = [73, 68, 65, 84];
    write_png_chunk(&mut png, &t_idat, idat);
    let t_iend: [u8; 4] = [73, 69, 78, 68];
    let empty: [u8; 0] = [];
    write_png_chunk(&mut png, &t_iend, empty.as_slice());
    proof {
        assert(sig@ =~= png_signature());
        assert(t_ihdr@ =~= seq![73u8, 72, 68, 82]);
        assert(t_idat@ =~= seq![73u8, 68, 65, 84]);
        assert(t_iend@ =~= seq![73u8, 69, 78, 68]);
        assert(depth@ =~= seq![8u8, 6, 0, 0, 0]);
        assert(empty@ =~= Seq::<u8>::empty());
    }
    assert(png@ =~= spec_png(size, idat@));
    png
}

/// Encodes filtered scanlines `raw` (one filter byte then RGBA pixels per
/// row) of a `size` x `size` image as a PNG (always `Some`): the
/// compressed bytes framed by `png_from_idat`.
pub fn encode_png(size: u32, raw: &[u8]) -> (png: Option<Vec<u8>>)
    ensures
        png is Some,
        png matches Some(p) ==> p@ == spec_png(size, zlib_fast(raw@)),
{
    let compressed = match zlib_compress_fast(raw) {
        Some(c) => c,
        None => return None,
    };
    Some(png_from_idat(size, compressed.as_slice()))
}

} // verus!
