use crate::receipt_image_codes::ReceiptImageFailureCodeV1;
use vstd::prelude::*;

verus! {

// ---------------------------------------------------------------------------
// Integer fields inside byte strings
// ---------------------------------------------------------------------------

/// The big-endian value of the two bytes at `offset`.
pub open spec fn be_u16_at(bytes: Seq<u8>, offset: int) -> int {
    bytes[offset] * 256 + bytes[offset + 1]
}

/// The big-endian value of the four bytes at `offset`.
pub open spec fn be_u32_at(bytes: Seq<u8>, offset: int) -> int {
    bytes[offset] * 16777216 + bytes[offset + 1] * 65536 + bytes[offset + 2] * 256 + bytes[offset
        + 3]
}

/// The little-endian value of the four bytes at `offset`.
pub open spec fn le_u32_at(bytes: Seq<u8>, offset: int) -> int {
    bytes[offset] + bytes[offset + 1] * 256 + bytes[offset + 2] * 65536 + bytes[offset + 3]
        * 16777216
}

/// Reads a big-endian `u16` at `offset`; the bytes must hold it whole.
pub fn read_be_u16(bytes: &[u8], offset: usize) -> (value: Result<u16, ReceiptImageFailureCodeV1>)
    ensures
        match value {
            Ok(v) => offset + 2 <= bytes@.len() && v == be_u16_at(bytes@, offset as int),
            Err(e) => offset + 2 > bytes@.len() && e == ReceiptImageFailureCodeV1::StructureRejected,
        },
{
    if offset > bytes.len() || bytes.len() - offset < 2 {
        return Err(ReceiptImageFailureCodeV1::StructureRejected);
    }
    Ok((bytes[offset] as u16) * 256 + bytes[offset + 1] as u16)
}

/// Reads a big-endian `u32` at `offset`; the bytes must hold it whole.
pub fn read_be_u32(bytes: &[u8], offset: usize) -> (value: Result<u32, ReceiptImageFailureCodeV1>)
    ensures
        match value {
            Ok(v) => offset + 4 <= bytes@.len() && v == be_u32_at(bytes@, offset as int),
            Err(e) => offset + 4 > bytes@.len() && e == ReceiptImageFailureCodeV1::StructureRejected,
        },
{
    if offset > bytes.len() || bytes.len() - offset < 4 {
        return Err(ReceiptImageFailureCodeV1::StructureRejected);
    }
    Ok((bytes[offset] as u32) * 16777216 + (bytes[offset + 1] as u32) * 65536 + (bytes[offset
        + 2] as u32) * 256 + bytes[offset + 3] as u32)
}

/// Reads a little-endian `u32` at `offset`; the bytes must hold it whole.
pub fn read_le_u32(bytes: &[u8], offset: usize) -> (value: Result<u32, ReceiptImageFailureCodeV1>)
    ensures
        match value {
            Ok(v) => offset + 4 <= bytes@.len() && v == le_u32_at(bytes@, offset as int),
            Err(e) => offset + 4 > bytes@.len() && e == ReceiptImageFailureCodeV1::StructureRejected,
        },
{
    if offset > bytes.len() || bytes.len() - offset < 4 {
        return Err(ReceiptImageFailureCodeV1::StructureRejected);
    }
    Ok(bytes[offset] as u32 + (bytes[offset + 1] as u32) * 256 + (bytes[offset + 2] as u32)
        * 65536 + (bytes[offset + 3] as u32) * 16777216)
}

/// Whether the four bytes at `at` are `a b c d`.
fn quad_at(bytes: &[u8], at: usize, a: u8, b: u8, c: u8, d: u8) -> (same: bool)
    requires
        at + 4 <= bytes@.len(),
    ensures
        same == (bytes@.subrange(at as int, at + 4) == seq![a, b, c, d]),
{
    let same = bytes[at] == a && bytes[at + 1] == b && bytes[at + 2] == c && bytes[at + 3] == d;
    proof {
        let s = bytes@.subrange(at as int, at + 4);
        if same {
            assert(s =~= seq![a, b, c, d]);
        } else {
            assert(s[0] != a || s[1] != b || s[2] != c || s[3] != d);
        }
    }
    same
}

// ---------------------------------------------------------------------------
// PNG chunk checksum (CRC-32, reflected polynomial 0xEDB88320)
// ---------------------------------------------------------------------------

/// One bit step of the reflected CRC-32 register.
pub open spec fn crc_shift(crc: u32) -> u32 {
    if (crc & 1u32) == 1u32 {
        (crc >> 1u32) ^ 0xedb8_8320u32
    } else {
        crc >> 1u32
    }
}

/// `n` bit steps of the register.
pub open spec fn crc_shifts(crc: u32, n: nat) -> u32
    decreases n,
{
    if n == 0 {
        crc
    } else {
        crc_shift(crc_shifts(crc, (n - 1) as nat))
    }
}

/// The register after all of `bytes`, starting from all ones.
pub open spec fn crc_register(bytes: Seq<u8>) -> u32
    decreases bytes.len(),
{
    if bytes.len() == 0 {
        0xffff_ffffu32
    } else {
        crc_shifts(crc_register(bytes.drop_last()) ^ (bytes.last() as u32), 8)
    }
}

/// The PNG CRC-32 of `bytes`.
pub open spec fn png_crc32_of(bytes: Seq<u8>) -> u32 {
    !crc_register(bytes)
}

/// The CRC-32 that PNG stores after each chunk.
pub fn png_crc32(bytes: &[u8]) -> (crc: u32)
    ensures
        crc == png_crc32_of(bytes@),
{
    let mut crc: u32 = 0xffff_ffff;
    let mut i: usize = 0;
    while i < bytes.len()
        invariant
            i <= bytes@.len(),
            crc == crc_register(bytes@.subrange(0, i as int)),
        decreases bytes@.len() - i,
    {
        let ghost before = crc;
        crc = crc ^ (bytes[i] as u32);
        let ghost start = crc;
        let mut k: u32 = 0;
        while k < 8
            invariant
                k <= 8,
                crc == crc_shifts(start, k as nat),
            decreases 8 - k,
        {
            crc = if (crc & 1u32) == 1u32 {
                (crc >> 1u32) ^ 0xedb8_8320u32
            } else {
                crc >> 1u32
            };
            k = k + 1;
        }
        proof {
            let next = bytes@.subrange(0, i + 1);
            assert(next.drop_last() =~= bytes@.subrange(0, i as int));
            assert(next.last() == bytes@[i as int]);
        }
        i = i + 1;
    }
    assert(bytes@.subrange(0, bytes@.len() as int) =~= bytes@);
    !crc
}

// ---------------------------------------------------------------------------
// PNG
// ---------------------------------------------------------------------------

/// A chunk of a PNG stream: its offset, declared data length, kind and the
/// offset just past its checksum.
pub struct PngChunk {
    pub offset: int,
    pub length: int,
    pub kind: Seq<u8>,
    pub end: int,
}

pub open spec fn png_signature() -> Seq<u8> {
    seq![0x89u8, 0x50u8, 0x4eu8, 0x47u8, 0x0du8, 0x0au8, 0x1au8, 0x0au8]
}

pub open spec fn kind_ihdr() -> Seq<u8> {
    seq![0x49u8, 0x48u8, 0x44u8, 0x52u8]
}

pub open spec fn kind_idat() -> Seq<u8> {
    seq![0x49u8, 0x44u8, 0x41u8, 0x54u8]
}

pub open spec fn kind_iend() -> Seq<u8> {
    seq![0x49u8, 0x45u8, 0x4eu8, 0x44u8]
}

/// The animation chunks of APNG: `acTL`, `fcTL`, `fdAT`.
pub open spec fn is_apng_kind(kind: Seq<u8>) -> bool {
    ||| kind == seq![0x61u8, 0x63u8, 0x54u8, 0x4cu8]
    ||| kind == seq![0x66u8, 0x63u8, 0x54u8, 0x4cu8]
    ||| kind == seq![0x66u8, 0x64u8, 0x41u8, 0x54u8]
}

/// The chunk that starts at `offset`, when the bytes hold all of it.
pub open spec fn png_chunk_at(bytes: Seq<u8>, offset: int) -> Option<PngChunk> {
    if 0 <= offset && offset + 4 <= bytes.len() && offset + 12 + be_u32_at(bytes, offset)
        <= bytes.len() {
        Some(
            PngChunk {
                offset,
                length: be_u32_at(bytes, offset),
                kind: bytes.subrange(offset + 4, offset + 8),
                end: offset + 12 + be_u32_at(bytes, offset),
            },
        )
    } else {
        None
    }
}

/// The chunks from `offset` on, up to and including the first `IEND`, or up to
/// the end of the bytes; `None` when a chunk runs past the end.
pub open spec fn png_walk(bytes: Seq<u8>, offset: int) -> Option<Seq<PngChunk>>
    decreases bytes.len() - offset,
{
    if offset < 0 || offset >= bytes.len() {
        Some(Seq::empty())
    } else {
        match png_chunk_at(bytes, offset) {
            None => None,
            Some(c) => if c.kind == kind_iend() {
                Some(seq![c])
            } else {
                match png_walk(bytes, c.end) {
                    Some(rest) => Some(seq![c] + rest),
                    None => None,
                }
            },
        }
    }
}

/// The checksum stored after `c` matches its kind and data.
pub open spec fn png_chunk_crc_ok(bytes: Seq<u8>, c: PngChunk) -> bool {
    png_crc32_of(bytes.subrange(c.offset + 4, c.end - 4)) == be_u32_at(bytes, c.end - 4)
}

pub open spec fn is_idat(c: PngChunk) -> bool {
    c.kind == kind_idat()
}

/// The `IDAT` chunks of `cs` stand together.
pub open spec fn idat_contiguous(cs: Seq<PngChunk>) -> bool {
    forall|i: int, j: int, k: int|
        0 <= i < j < k < cs.len() && #[trigger] is_idat(cs[i]) && #[trigger] is_idat(cs[k])
            ==> #[trigger] is_idat(cs[j])
}

/// A still PNG image: the signature, then at most 4096 chunks with valid
/// checksums, `IHDR` (13 bytes of data) first and never again, no APNG
/// animation chunk, at least one `IDAT` and all `IDAT`s together, and an empty
/// `IEND` that ends the bytes exactly.
pub open spec fn png_structure_valid(bytes: Seq<u8>) -> bool {
    &&& bytes.len() >= 8
    &&& bytes.subrange(0, 8) == png_signature()
    &&& match png_walk(bytes, 8) {
        Some(cs) => {
            &&& 1 <= cs.len() <= 4096
            &&& forall|i: int| 0 <= i < cs.len() ==> png_chunk_crc_ok(bytes, #[trigger] cs[i])
            &&& cs[0].kind == kind_ihdr() && cs[0].length == 13
            &&& forall|i: int| 1 <= i < cs.len() ==> (#[trigger] cs[i]).kind != kind_ihdr()
            &&& forall|i: int| 0 <= i < cs.len() ==> !is_apng_kind((#[trigger] cs[i]).kind)
            &&& cs.last().kind == kind_iend() && cs.last().length == 0
            &&& cs.last().end == bytes.len()
            &&& exists|i: int| 0 <= i < cs.len() && #[trigger] is_idat(cs[i])
            &&& idat_contiguous(cs)
        },
        None => false,
    }
}

pub open spec fn prepend_chunks(seen: Seq<PngChunk>, rest: Option<Seq<PngChunk>>) -> Option<
    Seq<PngChunk>,
> {
    match rest {
        Some(r) => Some(seen + r),
        None => None,
    }
}

proof fn lemma_png_walk_head(bytes: Seq<u8>, offset: int, c: PngChunk)
    requires
        0 <= offset < bytes.len(),
        png_chunk_at(bytes, offset) == Some(c),
    ensures
        match png_walk(bytes, offset) {
            Some(r) => r.len() >= 1 && r[0] == c,
            None => true,
        },
        c.kind == kind_iend() ==> png_walk(bytes, offset) == Some(seq![c]),
        c.kind != kind_iend() ==> png_walk(bytes, offset) == prepend_chunks(
            seq![c],
            png_walk(bytes, c.end),
        ),
{
}

/// Checks the chunk structure of a PNG stream (see `png_structure_valid`).
pub fn validate_png(bytes: &[u8]) -> (result: Result<(), ReceiptImageFailureCodeV1>)
    ensures
        result is Ok <==> png_structure_valid(bytes@),
        result matches Err(e) ==> e == ReceiptImageFailureCodeV1::StructureRejected,
{
    let rejected = ReceiptImageFailureCodeV1::StructureRejected;
    if bytes.len() < 8 || !(quad_at(bytes, 0, 0x89, 0x50, 0x4e, 0x47) && quad_at(
        bytes,
        4,
        0x0d,
        0x0a,
        0x1a,
        0x0a,
    )) {
        proof {
            if bytes@.len() >= 8 {
                let s = bytes@.subrange(0, 8);
                if s == png_signature() {
                    assert(bytes@.subrange(0, 4) =~= seq![0x89u8, 0x50u8, 0x4eu8, 0x47u8]);
                    assert(bytes@.subrange(4, 8) =~= seq![0x0du8, 0x0au8, 0x1au8, 0x0au8]);
                }
            }
        }
        return Err(rejected);
    }
    assert(bytes@.subrange(0, 8) =~= bytes@.subrange(0, 4) + bytes@.subrange(4, 8));
    let mut offset: usize = 8;
    let mut chunks: usize = 0;
    let mut saw_ihdr = false;
    let mut saw_idat = false;
    let mut idat_ended = false;
    let ghost mut seen: Seq<PngChunk> = Seq::empty();
    while offset < bytes.len()
        invariant
            8 <= offset <= bytes@.len(),
            bytes@.subrange(0, 8) == png_signature(),
            png_walk(bytes@, 8) == prepend_chunks(seen, png_walk(bytes@, offset as int)),
            chunks == seen.len() <= 4096,
            saw_ihdr == (seen.len() > 0),
            seen.len() > 0 ==> seen[0].kind == kind_ihdr() && seen[0].length == 13,
            forall|i: int| 0 <= i < seen.len() ==> png_chunk_crc_ok(bytes@, #[trigger] seen[i]),
            forall|i: int| 1 <= i < seen.len() ==> (#[trigger] seen[i]).kind != kind_ihdr(),
            forall|i: int| 0 <= i < seen.len() ==> !is_apng_kind((#[trigger] seen[i]).kind),
            forall|i: int| 0 <= i < seen.len() ==> (#[trigger] seen[i]).kind != kind_iend(),
            saw_idat == (exists|i: int| 0 <= i < seen.len() && #[trigger] is_idat(seen[i])),
            idat_ended == (exists|i: int, j: int|
                0 <= i < j < seen.len() && #[trigger] is_idat(seen[i]) && !#[trigger] is_idat(
                    seen[j],
                )),
            idat_contiguous(seen),
        decreases bytes@.len() - offset,
    {
        let ghost b = bytes@;
        let ghost at = offset as int;
        let ghost walk_here = png_walk(b, at);
        proof {
            // Whatever the walk from here yields is not empty.
            match png_chunk_at(b, at) {
                Some(c) => lemma_png_walk_head(b, at, c),
                None => {},
            }
        }
        chunks = chunks + 1;
        if chunks > 4096 {
            return Err(ReceiptImageFailureCodeV1::StructureRejected);
        }
        let length = match read_be_u32(bytes, offset) {
            Ok(v) => v as usize,
            Err(e) => {
                return Err(e);
            },
        };
        if bytes.len() - offset < 8 || length > bytes.len() - offset - 8 || bytes.len() - offset
            - 8 - length < 4 {
            return Err(ReceiptImageFailureCodeV1::StructureRejected);
        }
        let kind_start = offset + 4;
        let data_start = offset + 8;
        let data_end = data_start + length;
        let end = data_end + 4;
        let ghost c = PngChunk {
            offset: at,
            length: length as int,
            kind: b.subrange(at + 4, at + 8),
            end: end as int,
        };
        assert(png_chunk_at(b, at) == Some(c));
        proof {
            lemma_png_walk_head(b, at, c);
        }
        let expected_crc = match read_be_u32(bytes, data_end) {
            Ok(v) => v,
            Err(e) => {
                return Err(e);
            },
        };
        let actual_crc = png_crc32(&bytes[kind_start..data_end]);
        assert(bytes@.subrange(kind_start as int, data_end as int) == b.subrange(
            c.offset + 4,
            c.end - 4,
        ));
        if actual_crc != expected_crc {
            assert(!png_chunk_crc_ok(b, c));
            proof {
                if let Some(cs) = png_walk(b, 8) {
                    assert(cs[seen.len() as int] == c);
                }
            }
            return Err(ReceiptImageFailureCodeV1::StructureRejected);
        }
        let is_ihdr = quad_at(bytes, kind_start, 0x49, 0x48, 0x44, 0x52);
        if chunks == 1 {
            if !is_ihdr || length != 13 {
                proof {
                    if let Some(cs) = png_walk(b, 8) {
                        assert(cs[0] == c);
                    }
                }
                return Err(ReceiptImageFailureCodeV1::StructureRejected);
            }
            saw_ihdr = true;
        } else if is_ihdr {
            proof {
                if let Some(cs) = png_walk(b, 8) {
                    assert(cs[seen.len() as int] == c);
                }
            }
            return Err(ReceiptImageFailureCodeV1::StructureRejected);
        }
        if quad_at(bytes, kind_start, 0x61, 0x63, 0x54, 0x4c) || quad_at(
            bytes,
            kind_start,
            0x66,
            0x63,
            0x54,
            0x4c,
        ) || quad_at(bytes, kind_start, 0x66, 0x64, 0x41, 0x54) {
            proof {
                if let Some(cs) = png_walk(b, 8) {
                    assert(cs[seen.len() as int] == c);
                }
            }
            return Err(ReceiptImageFailureCodeV1::StructureRejected);
        }
        let is_idat_kind = quad_at(bytes, kind_start, 0x49, 0x44, 0x41, 0x54);
        let is_iend = quad_at(bytes, kind_start, 0x49, 0x45, 0x4e, 0x44);
        if is_idat_kind {
            if idat_ended {
                proof {
                    let (i, j) = choose|i: int, j: int|
                        0 <= i < j < seen.len() && #[trigger] is_idat(seen[i]) && !#[trigger] is_idat(
                            seen[j],
                        );
                    if let Some(cs) = png_walk(b, 8) {
                        let n = seen.len() as int;
                        assert(cs[n] == c);
                        assert(cs[i] == seen[i]);
                        assert(cs[j] == seen[j]);
                        assert(is_idat(cs[i]) && is_idat(cs[n]) && !is_idat(cs[j]));
                    }
                }
                return Err(ReceiptImageFailureCodeV1::StructureRejected);
            }
            saw_idat = true;
        } else if saw_idat && !is_iend {
            idat_ended = true;
        }
        if is_iend {
            let ok = saw_ihdr && saw_idat && length == 0 && end == bytes.len();
            proof {
                let cs = seen.push(c);
                assert(seen + seq![c] =~= cs);
                assert(png_walk(b, 8) == Some(cs));
                if ok {
                    assert forall|i: int, j: int, k: int|
                        0 <= i < j < k < cs.len() && #[trigger] is_idat(cs[i]) && #[trigger] is_idat(
                            cs[k],
                        ) implies #[trigger] is_idat(cs[j]) by {
                        assert(k < seen.len());
                        assert(cs[i] == seen[i] && cs[j] == seen[j] && cs[k] == seen[k]);
                    }
                    assert forall|i: int| 0 <= i < cs.len() implies png_chunk_crc_ok(
                        b,
                        #[trigger] cs[i],
                    ) by {
                        if i < seen.len() {
                            assert(cs[i] == seen[i]);
                        }
                    }
                    assert forall|i: int| 1 <= i < cs.len() implies (#[trigger] cs[i]).kind
                        != kind_ihdr() by {
                        if i < seen.len() {
                            assert(cs[i] == seen[i]);
                        }
                    }
                    assert forall|i: int| 0 <= i < cs.len() implies !is_apng_kind(
                        (#[trigger] cs[i]).kind,
                    ) by {
                        if i < seen.len() {
                            assert(cs[i] == seen[i]);
                        }
                    }
                    let w = choose|i: int| 0 <= i < seen.len() && #[trigger] is_idat(seen[i]);
                    assert(cs[w] == seen[w]);
                    assert(is_idat(cs[w]));
                    assert(cs[0] == seen[0]);
                } else {
                    if !saw_ihdr {
                        assert(cs[0] == c);
                    }
                    if !saw_idat {
                        assert forall|i: int| 0 <= i < cs.len() implies !#[trigger] is_idat(
                            cs[i],
                        ) by {
                            if i < seen.len() {
                                assert(cs[i] == seen[i]);
                            }
                        }
                    }
                }
            }
            return if ok {
                Ok(())
            } else {
                Err(ReceiptImageFailureCodeV1::StructureRejected)
            };
        }
        proof {
            let old_seen = seen;
            seen = seen.push(c);
            assert(old_seen + (seq![c] + png_walk(b, c.end).unwrap_or(Seq::empty())) =~= seen
                + png_walk(b, c.end).unwrap_or(Seq::empty()));
            assert forall|i: int| 0 <= i < seen.len() implies png_chunk_crc_ok(
                b,
                #[trigger] seen[i],
            ) by {
                if i < old_seen.len() {
                    assert(seen[i] == old_seen[i]);
                }
            }
            assert forall|i: int| 1 <= i < seen.len() implies (#[trigger] seen[i]).kind
                != kind_ihdr() by {
                if i < old_seen.len() {
                    assert(seen[i] == old_seen[i]);
                }
            }
            assert forall|i: int| 0 <= i < seen.len() implies !is_apng_kind(
                (#[trigger] seen[i]).kind,
            ) by {
                if i < old_seen.len() {
                    assert(seen[i] == old_seen[i]);
                }
            }
            assert forall|i: int| 0 <= i < seen.len() implies (#[trigger] seen[i]).kind
                != kind_iend() by {
                if i < old_seen.len() {
                    assert(seen[i] == old_seen[i]);
                }
            }
            assert(seen[0].kind == kind_ihdr() && seen[0].length == 13) by {
                if old_seen.len() > 0 {
                    assert(seen[0] == old_seen[0]);
                }
            }
            assert(saw_idat == (exists|i: int| 0 <= i < seen.len() && #[trigger] is_idat(seen[i])))
                by {
                if saw_idat {
                    if is_idat(c) {
                        assert(is_idat(seen[old_seen.len() as int]));
                    } else {
                        let w = choose|i: int| 0 <= i < old_seen.len() && #[trigger] is_idat(
                            old_seen[i],
                        );
                        assert(seen[w] == old_seen[w]);
                    }
                } else {
                    assert forall|i: int| 0 <= i < seen.len() implies !#[trigger] is_idat(
                        seen[i],
                    ) by {
                        if i < old_seen.len() {
                            assert(seen[i] == old_seen[i]);
                        }
                    }
                }
            }
            assert(idat_ended == (exists|i: int, j: int|
                0 <= i < j < seen.len() && #[trigger] is_idat(seen[i]) && !#[trigger] is_idat(
                    seen[j],
                ))) by {
                if idat_ended {
                    if exists|i: int, j: int|
                        0 <= i < j < old_seen.len() && #[trigger] is_idat(old_seen[i])
                            && !#[trigger] is_idat(old_seen[j]) {
                        let (i, j) = choose|i: int, j: int|
                            0 <= i < j < old_seen.len() && #[trigger] is_idat(old_seen[i])
                                && !#[trigger] is_idat(old_seen[j]);
                        assert(seen[i] == old_seen[i] && seen[j] == old_seen[j]);
                    } else {
                        let w = choose|i: int| 0 <= i < old_seen.len() && #[trigger] is_idat(
                            old_seen[i],
                        );
                        assert(seen[w] == old_seen[w]);
                        assert(!is_idat(seen[old_seen.len() as int]));
                    }
                } else {
                    assert forall|i: int, j: int|
                        0 <= i < j < seen.len() && #[trigger] is_idat(seen[i]) implies #[trigger] is_idat(
                        seen[j],
                    ) by {
                        if j < old_seen.len() {
                            assert(seen[i] == old_seen[i] && seen[j] == old_seen[j]);
                        } else {
                            assert(seen[i] == old_seen[i]);
                        }
                    }
                }
            }
            assert forall|i: int, j: int, k: int|
                0 <= i < j < k < seen.len() && #[trigger] is_idat(seen[i]) && #[trigger] is_idat(
                    seen[k],
                ) implies #[trigger] is_idat(seen[j]) by {
                if k < old_seen.len() {
                    assert(seen[i] == old_seen[i] && seen[j] == old_seen[j] && seen[k]
                        == old_seen[k]);
                } else {
                    assert(seen[i] == old_seen[i] && seen[j] == old_seen[j]);
                }
            }
        }
        offset = end;
    }
    proof {
        assert(png_walk(bytes@, offset as int) == Some(Seq::<PngChunk>::empty()));
        assert(seen + Seq::<PngChunk>::empty() =~= seen);
        if seen.len() > 0 {
            assert(seen.last() == seen[seen.len() - 1]);
        }
    }
    Err(ReceiptImageFailureCodeV1::StructureRejected)
}

// ---------------------------------------------------------------------------
// WebP
// ---------------------------------------------------------------------------

/// A chunk of a RIFF/WebP stream: offset, kind, declared length and the offset
/// of the next chunk (after the pad byte of an odd length).
pub struct RiffChunk {
    pub offset: int,
    pub kind: Seq<u8>,
    pub length: int,
    pub next: int,
}

pub open spec fn riff_chunk_at(bytes: Seq<u8>, offset: int) -> Option<RiffChunk> {
    if 0 <= offset && offset + 8 <= bytes.len() && offset + 8 + le_u32_at(bytes, offset + 4) + (
    le_u32_at(bytes, offset + 4) % 2) <= bytes.len() {
        Some(
            RiffChunk {
                offset,
                kind: bytes.subrange(offset, offset + 4),
                length: le_u32_at(bytes, offset + 4),
                next: offset + 8 + le_u32_at(bytes, offset + 4) + (le_u32_at(bytes, offset + 4)
                    % 2),
            },
        )
    } else {
        None
    }
}

/// The chunks from `offset` to the end of the bytes; `None` when one runs past it.
pub open spec fn riff_walk(bytes: Seq<u8>, offset: int) -> Option<Seq<RiffChunk>>
    decreases bytes.len() - offset,
{
    if offset < 0 || offset >= bytes.len() {
        Some(Seq::empty())
    } else {
        match riff_chunk_at(bytes, offset) {
            None => None,
            Some(c) => match riff_walk(bytes, c.next) {
                Some(rest) => Some(seq![c] + rest),
                None => None,
            },
        }
    }
}

pub open spec fn kind_riff() -> Seq<u8> {
    seq![0x52u8, 0x49u8, 0x46u8, 0x46u8]
}

pub open spec fn kind_webp() -> Seq<u8> {
    seq![0x57u8, 0x45u8, 0x42u8, 0x50u8]
}

pub open spec fn kind_vp8x() -> Seq<u8> {
    seq![0x56u8, 0x50u8, 0x38u8, 0x58u8]
}

/// `ANIM` or `ANMF`: the chunks of an animation.
pub open spec fn is_animation_kind(kind: Seq<u8>) -> bool {
    kind == seq![0x41u8, 0x4eu8, 0x49u8, 0x4du8] || kind == seq![0x41u8, 0x4eu8, 0x4du8, 0x46u8]
}

/// `VP8 ` or `VP8L`: a chunk that carries the image.
pub open spec fn is_image_payload(c: RiffChunk) -> bool {
    c.kind == seq![0x56u8, 0x50u8, 0x38u8, 0x20u8] || c.kind == seq![
        0x56u8,
        0x50u8,
        0x38u8,
        0x4cu8,
    ]
}

pub open spec fn is_vp8x(c: RiffChunk) -> bool {
    c.kind == kind_vp8x()
}

/// An extended-format header that declares no animation: ten bytes, flag bit
/// 0x02 clear.
pub open spec fn vp8x_still(bytes: Seq<u8>, c: RiffChunk) -> bool {
    c.length == 10 && (bytes[c.offset + 8] & 2u8) == 0u8
}

/// A still WebP image: `RIFF`, a size that covers the rest exactly, `WEBP`,
/// then at most 4096 chunks up to the end, none of them animation chunks, at
/// most one still `VP8X` header and exactly one image payload.
pub open spec fn webp_structure_valid(bytes: Seq<u8>) -> bool {
    &&& bytes.len() >= 12
    &&& bytes.subrange(0, 4) == kind_riff()
    &&& bytes.subrange(8, 12) == kind_webp()
    &&& le_u32_at(bytes, 4) + 8 == bytes.len()
    &&& match riff_walk(bytes, 12) {
        Some(cs) => {
            &&& cs.len() <= 4096
            &&& forall|i: int| 0 <= i < cs.len() ==> !is_animation_kind((#[trigger] cs[i]).kind)
            &&& forall|i: int| 0 <= i < cs.len() && #[trigger] is_vp8x(cs[i]) ==> vp8x_still(bytes, cs[i])
            &&& forall|i: int, j: int| 0 <= i < j < cs.len() && #[trigger] is_vp8x(cs[i]) ==> !#[trigger] is_vp8x(cs[j])
            &&& exists|i: int| 0 <= i < cs.len() && #[trigger] is_image_payload(cs[i])
            &&& forall|i: int, j: int|
                0 <= i < j < cs.len() && #[trigger] is_image_payload(cs[i]) ==> !#[trigger] is_image_payload(cs[j])
        },
        None => false,
    }
}

pub open spec fn prepend_riff(seen: Seq<RiffChunk>, rest: Option<Seq<RiffChunk>>) -> Option<Seq<RiffChunk>> {
    match rest {
        Some(r) => Some(seen + r),
        None => None,
    }
}

/// Checks the chunk structure of a WebP stream (see `webp_structure_valid`).
pub fn validate_webp(bytes: &[u8]) -> (result: Result<(), ReceiptImageFailureCodeV1>)
    ensures
        result is Ok <==> webp_structure_valid(bytes@),
        result matches Err(e) ==> e == ReceiptImageFailureCodeV1::StructureRejected,
{
    if bytes.len() < 12 || !quad_at(bytes, 0, 0x52, 0x49, 0x46, 0x46) || !quad_at(
        bytes,
        8,
        0x57,
        0x45,
        0x42,
        0x50,
    ) {
        return Err(ReceiptImageFailureCodeV1::StructureRejected);
    }
    let riff_size = match read_le_u32(bytes, 4) {
        Ok(v) => v as usize,
        Err(e) => {
            return Err(e);
        },
    };
    if riff_size > bytes.len() || bytes.len() - riff_size != 8 {
        return Err(ReceiptImageFailureCodeV1::StructureRejected);
    }
    let mut offset: usize = 12;
    let mut chunks: usize = 0;
    let mut image_payloads: usize = 0;
    let mut vp8x = false;
    let ghost mut seen: Seq<RiffChunk> = Seq::empty();
    while offset < bytes.len()
        invariant
            12 <= offset <= bytes@.len(),
            bytes@.len() >= 12,
            bytes@.subrange(0, 4) == kind_riff(),
            bytes@.subrange(8, 12) == kind_webp(),
            le_u32_at(bytes@, 4) + 8 == bytes@.len(),
            riff_walk(bytes@, 12) == prepend_riff(seen, riff_walk(bytes@, offset as int)),
            chunks == seen.len() <= 4096,
            forall|i: int| 0 <= i < seen.len() ==> !is_animation_kind((#[trigger] seen[i]).kind),
            forall|i: int| 0 <= i < seen.len() && #[trigger] is_vp8x(seen[i]) ==> vp8x_still(bytes@, seen[i]),
            forall|i: int, j: int| 0 <= i < j < seen.len() && #[trigger] is_vp8x(seen[i]) ==> !#[trigger] is_vp8x(seen[j]),
            vp8x == (exists|i: int| 0 <= i < seen.len() && #[trigger] is_vp8x(seen[i])),
            image_payloads <= 1,
            image_payloads == 0 ==> forall|i: int| 0 <= i < seen.len() ==> !#[trigger] is_image_payload(seen[i]),
            image_payloads == 1 ==> exists|i: int| 0 <= i < seen.len() && #[trigger] is_image_payload(seen[i]),
            forall|i: int, j: int|
                0 <= i < j < seen.len() && #[trigger] is_image_payload(seen[i]) ==> !#[trigger] is_image_payload(seen[j]),
        decreases bytes@.len() - offset,
    {
        let ghost b = bytes@;
        let ghost at = offset as int;
        proof {
            // The walk from here, when it exists, starts with the chunk here.
            if let Some(c) = riff_chunk_at(b, at) {
                assert(riff_walk(b, at) == prepend_riff(seq![c], riff_walk(b, c.next)));
            }
        }
        chunks = chunks + 1;
        if chunks > 4096 || bytes.len() - offset < 8 {
            return Err(ReceiptImageFailureCodeV1::StructureRejected);
        }
        let length = match read_le_u32(bytes, offset + 4) {
            Ok(v) => v as usize,
            Err(e) => {
                return Err(e);
            },
        };
        let data_start = offset + 8;
        if length > bytes.len() - data_start {
            return Err(ReceiptImageFailureCodeV1::StructureRejected);
        }
        let data_end = data_start + length;
        let pad: usize = length % 2;
        let ghost fits = data_end + pad <= bytes@.len();
        let ghost c = RiffChunk {
            offset: at,
            kind: b.subrange(at, at + 4),
            length: length as int,
            next: data_end + pad,
        };
        proof {
            if fits {
                assert(riff_chunk_at(b, at) == Some(c));
                assert(riff_walk(b, at) == prepend_riff(seq![c], riff_walk(b, c.next)));
                if let Some(cs) = riff_walk(b, 12) {
                    assert(cs[seen.len() as int] == c);
                }
            } else {
                assert(riff_chunk_at(b, at) is None);
            }
        }
        if quad_at(bytes, offset, 0x41, 0x4e, 0x49, 0x4d) || quad_at(
            bytes,
            offset,
            0x41,
            0x4e,
            0x4d,
            0x46,
        ) {
            return Err(ReceiptImageFailureCodeV1::StructureRejected);
        }
        let is_vp8x_kind = quad_at(bytes, offset, 0x56, 0x50, 0x38, 0x58);
        if is_vp8x_kind {
            if vp8x || length != 10 || bytes[data_start] & 0x02 != 0 {
                proof {
                    if fits && vp8x {
                        let w = choose|i: int| 0 <= i < seen.len() && #[trigger] is_vp8x(seen[i]);
                        if let Some(cs) = riff_walk(b, 12) {
                            assert(cs[w] == seen[w]);
                            assert(is_vp8x(cs[w]) && is_vp8x(cs[seen.len() as int]));
                        }
                    } else if fits {
                        if let Some(cs) = riff_walk(b, 12) {
                            assert(is_vp8x(cs[seen.len() as int]));
                            assert(!vp8x_still(b, cs[seen.len() as int]));
                        }
                    }
                }
                return Err(ReceiptImageFailureCodeV1::StructureRejected);
            }
            vp8x = true;
        }
        let is_payload = quad_at(bytes, offset, 0x56, 0x50, 0x38, 0x20) || quad_at(
            bytes,
            offset,
            0x56,
            0x50,
            0x38,
            0x4c,
        );
        if is_payload {
            image_payloads = image_payloads + 1;
            if image_payloads > 1 {
                proof {
                    if fits {
                        let w = choose|i: int| 0 <= i < seen.len() && #[trigger] is_image_payload(seen[i]);
                        if let Some(cs) = riff_walk(b, 12) {
                            assert(cs[w] == seen[w]);
                            assert(is_image_payload(cs[w]) && is_image_payload(cs[seen.len() as int]));
                        }
                    }
                }
                return Err(ReceiptImageFailureCodeV1::StructureRejected);
            }
        }
        if pad > bytes.len() - data_end {
            return Err(ReceiptImageFailureCodeV1::StructureRejected);
        }
        proof {
            let old_seen = seen;
            seen = seen.push(c);
            assert(old_seen + (seq![c] + riff_walk(b, c.next).unwrap_or(Seq::empty())) =~= seen
                + riff_walk(b, c.next).unwrap_or(Seq::empty()));
            assert forall|i: int| 0 <= i < seen.len() implies !is_animation_kind(
                (#[trigger] seen[i]).kind,
            ) by {
                if i < old_seen.len() {
                    assert(seen[i] == old_seen[i]);
                }
            }
            assert forall|i: int| 0 <= i < seen.len() && #[trigger] is_vp8x(seen[i]) implies vp8x_still(
                b,
                seen[i],
            ) by {
                if i < old_seen.len() {
                    assert(seen[i] == old_seen[i]);
                }
            }
            assert forall|i: int, j: int| 0 <= i < j < seen.len() && #[trigger] is_vp8x(seen[i]) implies !#[trigger] is_vp8x(
                seen[j],
            ) by {
                assert(seen[i] == old_seen[i]);
                if j < old_seen.len() {
                    assert(seen[j] == old_seen[j]);
                }
            }
            assert(vp8x == (exists|i: int| 0 <= i < seen.len() && #[trigger] is_vp8x(seen[i]))) by {
                if vp8x {
                    if is_vp8x(c) {
                        assert(is_vp8x(seen[old_seen.len() as int]));
                    } else {
                        let w = choose|i: int| 0 <= i < old_seen.len() && #[trigger] is_vp8x(old_seen[i]);
                        assert(seen[w] == old_seen[w]);
                    }
                } else {
                    assert forall|i: int| 0 <= i < seen.len() implies !#[trigger] is_vp8x(seen[i]) by {
                        if i < old_seen.len() {
                            assert(seen[i] == old_seen[i]);
                        }
                    }
                }
            }
            if image_payloads == 0 {
                assert forall|i: int| 0 <= i < seen.len() implies !#[trigger] is_image_payload(seen[i]) by {
                    if i < old_seen.len() {
                        assert(seen[i] == old_seen[i]);
                    }
                }
            } else {
                if is_image_payload(c) {
                    assert(is_image_payload(seen[old_seen.len() as int]));
                } else {
                    let w = choose|i: int| 0 <= i < old_seen.len() && #[trigger] is_image_payload(old_seen[i]);
                    assert(seen[w] == old_seen[w]);
                }
            }
            assert forall|i: int, j: int|
                0 <= i < j < seen.len() && #[trigger] is_image_payload(seen[i]) implies !#[trigger] is_image_payload(seen[j]) by {
                assert(seen[i] == old_seen[i]);
                if j < old_seen.len() {
                    assert(seen[j] == old_seen[j]);
                }
            }
        }
        offset = data_end + pad;
    }
    proof {
        assert(riff_walk(bytes@, offset as int) == Some(Seq::<RiffChunk>::empty()));
        assert(seen + Seq::<RiffChunk>::empty() =~= seen);
    }
    if image_payloads == 1 {
        Ok(())
    } else {
        Err(ReceiptImageFailureCodeV1::StructureRejected)
    }
}

// ---------------------------------------------------------------------------
// JPEG
// ---------------------------------------------------------------------------

/// How many `0xFF` fill bytes run from `p`.
pub open spec fn ff_run(bytes: Seq<u8>, p: int) -> nat
    decreases bytes.len() - p,
{
    if 0 <= p < bytes.len() && bytes[p] == 0xffu8 {
        1 + ff_run(bytes, p + 1)
    } else {
        0
    }
}

/// A marker that stuffs or restarts entropy-coded data: `0x00` or `RST0..RST7`.
pub open spec fn is_scan_continuation(marker: u8) -> bool {
    marker == 0u8 || (0xd0u8 <= marker <= 0xd7u8)
}

/// How far the entropy-coded data that starts at `p` runs before the `0xFF`
/// of the next real marker; `None` when the bytes end first.
pub open spec fn scan_len(bytes: Seq<u8>, p: int) -> Option<nat>
    decreases bytes.len() - p,
{
    if p < 0 || p >= bytes.len() {
        None
    } else if bytes[p] != 0xffu8 {
        match scan_len(bytes, p + 1) {
            Some(k) => Some(k + 1),
            None => None,
        }
    } else {
        let n = p + 1 + ff_run(bytes, p + 1);
        if n >= bytes.len() {
            None
        } else if is_scan_continuation(bytes[n]) {
            match scan_len(bytes, n + 1) {
                Some(k) => Some(k + (n + 1 - p) as nat),
                None => None,
            }
        } else {
            Some(0nat)
        }
    }
}

/// A segment of a JPEG stream: its marker, where the marker byte stands, where
/// its length-prefixed part ends and where the next segment starts.
pub struct JpegSegment {
    pub marker: u8,
    pub marker_at: int,
    pub seg_end: int,
    pub next: int,
}

/// The start-of-frame markers.
pub open spec fn is_sof_marker(marker: u8) -> bool {
    marker == 0xc0u8 || marker == 0xc1u8 || marker == 0xc2u8 || marker == 0xc3u8 || marker
        == 0xc5u8 || marker == 0xc6u8 || marker == 0xc7u8 || marker == 0xc9u8 || marker == 0xcau8
        || marker == 0xcbu8 || marker == 0xcdu8 || marker == 0xceu8 || marker == 0xcfu8
}

/// Markers that may not start a segment here.
pub open spec fn is_forbidden_marker(marker: u8) -> bool {
    marker == 0xd8u8 || marker == 0u8 || (0xd0u8 <= marker <= 0xd7u8)
}

/// The segments from `p` on, up to and including `EOI`, or up to the end of
/// the bytes; `None` when a segment is malformed or runs past the end.
pub open spec fn jpeg_walk(bytes: Seq<u8>, p: int) -> Option<Seq<JpegSegment>>
    decreases if p < bytes.len() {
        bytes.len() - p
    } else {
        0
    },
{
    if p < 0 || p >= bytes.len() {
        Some(Seq::empty())
    } else if bytes[p] != 0xffu8 {
        None
    } else {
        let m = p + ff_run(bytes, p);
        if m >= bytes.len() {
            None
        } else if bytes[m] == 0xd9u8 {
            Some(seq![JpegSegment { marker: 0xd9u8, marker_at: m, seg_end: m + 1, next: m + 1 }])
        } else if is_forbidden_marker(bytes[m]) || m + 3 > bytes.len() {
            None
        } else {
            let length = be_u16_at(bytes, m + 1);
            if length < 2 || m + 1 + length > bytes.len() {
                None
            } else {
                let seg_end = m + 1 + length;
                let skip = if bytes[m] == 0xdau8 {
                    scan_len(bytes, seg_end)
                } else {
                    Some(0nat)
                };
                match skip {
                    None => None,
                    Some(k) => {
                        let seg = JpegSegment {
                            marker: bytes[m],
                            marker_at: m,
                            seg_end,
                            next: seg_end + k,
                        };
                        match jpeg_walk(bytes, seg_end + k) {
                            Some(rest) => Some(seq![seg] + rest),
                            None => None,
                        }
                    },
                }
            }
        }
    }
}

/// An `APP2` segment that carries a Multi-Picture Format index.
pub open spec fn is_mpf_segment(bytes: Seq<u8>, s: JpegSegment) -> bool {
    &&& s.marker == 0xe2u8
    &&& s.seg_end - (s.marker_at + 3) >= 4
    &&& bytes.subrange(s.marker_at + 3, s.marker_at + 7) == seq![0x4du8, 0x50u8, 0x46u8, 0u8]
}

pub open spec fn is_sof_segment(s: JpegSegment) -> bool {
    is_sof_marker(s.marker)
}

pub open spec fn is_sos_segment(s: JpegSegment) -> bool {
    s.marker == 0xdau8
}

/// A single-frame JPEG stream: `SOI`, then well-formed segments with exactly
/// one start-of-frame, at least one start-of-scan, no Multi-Picture `APP2`
/// index, ending with `EOI` on the last byte.
pub open spec fn jpeg_structure_valid(bytes: Seq<u8>) -> bool {
    &&& bytes.len() >= 4
    &&& bytes[0] == 0xffu8 && bytes[1] == 0xd8u8
    &&& match jpeg_walk(bytes, 2) {
        Some(segs) => {
            &&& segs.len() >= 1
            &&& segs.last().marker == 0xd9u8
            &&& segs.last().next == bytes.len()
            &&& exists|i: int| 0 <= i < segs.len() && #[trigger] is_sof_segment(segs[i])
            &&& forall|i: int, j: int|
                0 <= i < j < segs.len() && #[trigger] is_sof_segment(segs[i]) ==> !#[trigger] is_sof_segment(segs[j])
            &&& exists|i: int| 0 <= i < segs.len() && #[trigger] is_sos_segment(segs[i])
            &&& forall|i: int| 0 <= i < segs.len() ==> !is_mpf_segment(bytes, #[trigger] segs[i])
        },
        None => false,
    }
}

pub open spec fn prepend_segments(seen: Seq<JpegSegment>, rest: Option<Seq<JpegSegment>>) -> Option<
    Seq<JpegSegment>,
> {
    match rest {
        Some(r) => Some(seen + r),
        None => None,
    }
}

proof fn lemma_jpeg_walk_segment(bytes: Seq<u8>, p: int, m: int, length: int)
    requires
        0 <= p < bytes.len(),
        bytes[p] == 0xffu8,
        m == p + ff_run(bytes, p),
        m < bytes.len(),
        bytes[m] != 0xd9u8,
        !is_forbidden_marker(bytes[m]),
        m + 3 <= bytes.len(),
        length == be_u16_at(bytes, m + 1),
        2 <= length,
        m + 1 + length <= bytes.len(),
    ensures
        ({
            let skip = if bytes[m] == 0xdau8 {
                scan_len(bytes, m + 1 + length)
            } else {
                Some(0nat)
            };
            match skip {
                Some(k) => jpeg_walk(bytes, p) == prepend_segments(
                    seq![
                        JpegSegment {
                            marker: bytes[m],
                            marker_at: m,
                            seg_end: m + 1 + length,
                            next: m + 1 + length + k,
                        },
                    ],
                    jpeg_walk(bytes, m + 1 + length + k),
                ),
                None => jpeg_walk(bytes, p) is None,
            }
        }),
{
}

/// The first offset at or after `from` that does not hold a fill byte.
fn skip_fill(bytes: &[u8], from: usize) -> (to: usize)
    requires
        from <= bytes@.len(),
    ensures
        to == from + ff_run(bytes@, from as int),
        to <= bytes@.len(),
{
    let mut at = from;
    while at < bytes.len() && bytes[at] == 0xff
        invariant
            from <= at <= bytes@.len(),
            from + ff_run(bytes@, from as int) == at + ff_run(bytes@, at as int),
        decreases bytes@.len() - at,
    {
        at = at + 1;
    }
    at
}

/// Skips entropy-coded data from `from` to the `0xFF` that opens the next real
/// marker.
fn skip_entropy(bytes: &[u8], from: usize) -> (to: Option<usize>)
    requires
        from <= bytes@.len(),
    ensures
        match scan_len(bytes@, from as int) {
            Some(k) => to matches Some(t) && t == from + k,
            None => to is None,
        },
        to matches Some(t) ==> from <= t < bytes@.len(),
{
    let mut at = from;
    loop
        invariant
            from <= at <= bytes@.len(),
            scan_len(bytes@, from as int) == (match scan_len(bytes@, at as int) {
                Some(k) => Some((k + (at - from)) as nat),
                None => None,
            }),
        decreases bytes@.len() - at,
    {
        if at >= bytes.len() {
            return None;
        }
        if bytes[at] != 0xff {
            at = at + 1;
            continue;
        }
        let next = skip_fill(bytes, at + 1);
        if next >= bytes.len() {
            return None;
        }
        let marker = bytes[next];
        if marker == 0 || (0xd0 <= marker && marker <= 0xd7) {
            at = next + 1;
        } else {
            return Some(at);
        }
    }
}

/// Checks the segment structure of a JPEG stream (see `jpeg_structure_valid`).
#[verifier::rlimit(40)]
pub fn validate_jpeg(bytes: &[u8]) -> (result: Result<(), ReceiptImageFailureCodeV1>)
    ensures
        result is Ok <==> jpeg_structure_valid(bytes@),
        result matches Err(e) ==> e == ReceiptImageFailureCodeV1::StructureRejected,
{
    if bytes.len() < 4 || bytes[0] != 0xff || bytes[1] != 0xd8 {
        return Err(ReceiptImageFailureCodeV1::StructureRejected);
    }
    let mut offset: usize = 2;
    let mut saw_sof = false;
    let mut saw_sos = false;
    let ghost mut seen: Seq<JpegSegment> = Seq::empty();
    while offset < bytes.len()
        invariant
            2 <= offset <= bytes@.len(),
            bytes@.len() >= 4,
            bytes@[0] == 0xffu8 && bytes@[1] == 0xd8u8,
            jpeg_walk(bytes@, 2) == prepend_segments(seen, jpeg_walk(bytes@, offset as int)),
            forall|i: int| 0 <= i < seen.len() ==> (#[trigger] seen[i]).marker != 0xd9u8,
            saw_sof == (exists|i: int| 0 <= i < seen.len() && #[trigger] is_sof_segment(seen[i])),
            forall|i: int, j: int|
                0 <= i < j < seen.len() && #[trigger] is_sof_segment(seen[i]) ==> !#[trigger] is_sof_segment(seen[j]),
            saw_sos == (exists|i: int| 0 <= i < seen.len() && #[trigger] is_sos_segment(seen[i])),
            forall|i: int| 0 <= i < seen.len() ==> !is_mpf_segment(bytes@, #[trigger] seen[i]),
        decreases bytes@.len() - offset,
    {
        let ghost b = bytes@;
        let ghost at = offset as int;
        if bytes[offset] != 0xff {
            return Err(ReceiptImageFailureCodeV1::StructureRejected);
        }
        let m = skip_fill(bytes, offset);
        if m >= bytes.len() {
            return Err(ReceiptImageFailureCodeV1::StructureRejected);
        }
        let marker = bytes[m];
        if marker == 0xd9 {
            let ok = saw_sof && saw_sos && m + 1 == bytes.len();
            proof {
                let seg = JpegSegment { marker: 0xd9u8, marker_at: m as int, seg_end: m + 1, next: m + 1 };
                let segs = seen.push(seg);
                assert(seen + seq![seg] =~= segs);
                assert(jpeg_walk(b, 2) == Some(segs));
                assert(segs.last() == seg);
                if ok {
                    let w = choose|i: int| 0 <= i < seen.len() && #[trigger] is_sof_segment(seen[i]);
                    assert(segs[w] == seen[w]);
                    let v = choose|i: int| 0 <= i < seen.len() && #[trigger] is_sos_segment(seen[i]);
                    assert(segs[v] == seen[v]);
                    assert forall|i: int, j: int|
                        0 <= i < j < segs.len() && #[trigger] is_sof_segment(segs[i]) implies !#[trigger] is_sof_segment(segs[j]) by {
                        assert(segs[i] == seen[i]);
                        if j < seen.len() {
                            assert(segs[j] == seen[j]);
                        }
                    }
                    assert forall|i: int| 0 <= i < segs.len() implies !is_mpf_segment(b, #[trigger] segs[i]) by {
                        if i < seen.len() {
                            assert(segs[i] == seen[i]);
                        }
                    }
                } else {
                    if !saw_sof {
                        assert forall|i: int| 0 <= i < segs.len() implies !#[trigger] is_sof_segment(segs[i]) by {
                            if i < seen.len() {
                                assert(segs[i] == seen[i]);
                            }
                        }
                    }
                    if !saw_sos {
                        assert forall|i: int| 0 <= i < segs.len() implies !#[trigger] is_sos_segment(segs[i]) by {
                            if i < seen.len() {
                                assert(segs[i] == seen[i]);
                            }
                        }
                    }
                }
            }
            return if ok {
                Ok(())
            } else {
                Err(ReceiptImageFailureCodeV1::StructureRejected)
            };
        }
        if marker == 0xd8 || marker == 0 || (0xd0 <= marker && marker <= 0xd7) {
            return Err(ReceiptImageFailureCodeV1::StructureRejected);
        }
        let length = match read_be_u16(bytes, m + 1) {
            Ok(v) => v as usize,
            Err(e) => {
                return Err(e);
            },
        };
        if length < 2 || length > bytes.len() - (m + 1) {
            return Err(ReceiptImageFailureCodeV1::StructureRejected);
        }
        let payload_start = m + 3;
        let segment_end = m + 1 + length;
        let is_sof = marker == 0xc0 || marker == 0xc1 || marker == 0xc2 || marker == 0xc3 || marker
            == 0xc5 || marker == 0xc6 || marker == 0xc7 || marker == 0xc9 || marker == 0xca || marker
            == 0xcb || marker == 0xcd || marker == 0xce || marker == 0xcf;
        let ghost skip = if marker == 0xda {
            scan_len(b, segment_end as int)
        } else {
            Some(0nat)
        };
        let ghost seg = JpegSegment {
            marker,
            marker_at: m as int,
            seg_end: segment_end as int,
            next: segment_end + skip.unwrap_or(0nat),
        };
        proof {
            lemma_jpeg_walk_segment(b, at, m as int, length as int);
            if let Some(k) = skip {
                if let Some(segs) = jpeg_walk(b, 2) {
                    assert(segs[seen.len() as int] == seg);
                }
            } else {
                assert(jpeg_walk(b, at) is None);
            }
        }
        if is_sof {
            if saw_sof {
                proof {
                    if skip is Some {
                        let w = choose|i: int| 0 <= i < seen.len() && #[trigger] is_sof_segment(seen[i]);
                        if let Some(segs) = jpeg_walk(b, 2) {
                            assert(segs[w] == seen[w]);
                            assert(is_sof_segment(segs[w]) && is_sof_segment(segs[seen.len() as int]));
                        }
                    }
                }
                return Err(ReceiptImageFailureCodeV1::StructureRejected);
            }
            saw_sof = true;
        }
        if marker == 0xe2 && segment_end - payload_start >= 4 && quad_at(
            bytes,
            payload_start,
            0x4d,
            0x50,
            0x46,
            0,
        ) {
            proof {
                if skip is Some {
                    if let Some(segs) = jpeg_walk(b, 2) {
                        assert(is_mpf_segment(b, segs[seen.len() as int]));
                    }
                }
            }
            return Err(ReceiptImageFailureCodeV1::StructureRejected);
        }
        let mut next_offset = segment_end;
        assert(marker != 0xda ==> next_offset == seg.next);
        if marker == 0xda {
            saw_sos = true;
            match skip_entropy(bytes, segment_end) {
                Some(to) => {
                    assert(skip == scan_len(b, segment_end as int));
                    assert(to == segment_end + skip.unwrap_or(0nat));
                    next_offset = to;
                },
                None => {
                    return Err(ReceiptImageFailureCodeV1::StructureRejected);
                },
            }
        }
        proof {
            let old_seen = seen;
            seen = seen.push(seg);
            assert(next_offset == seg.next);
            if let Some(r) = jpeg_walk(b, seg.next) {
                assert(old_seen + (seq![seg] + r) =~= seen + r);
            }
            assert forall|i: int| 0 <= i < seen.len() implies (#[trigger] seen[i]).marker != 0xd9u8 by {
                if i < old_seen.len() {
                    assert(seen[i] == old_seen[i]);
                }
            }
            assert(saw_sof == (exists|i: int| 0 <= i < seen.len() && #[trigger] is_sof_segment(seen[i]))) by {
                if saw_sof {
                    if is_sof_segment(seg) {
                        assert(is_sof_segment(seen[old_seen.len() as int]));
                    } else {
                        let w = choose|i: int| 0 <= i < old_seen.len() && #[trigger] is_sof_segment(old_seen[i]);
                        assert(seen[w] == old_seen[w]);
                    }
                } else {
                    assert forall|i: int| 0 <= i < seen.len() implies !#[trigger] is_sof_segment(seen[i]) by {
                        if i < old_seen.len() {
                            assert(seen[i] == old_seen[i]);
                        }
                    }
                }
            }
            assert forall|i: int, j: int|
                0 <= i < j < seen.len() && #[trigger] is_sof_segment(seen[i]) implies !#[trigger] is_sof_segment(seen[j]) by {
                assert(seen[i] == old_seen[i]);
                if j < old_seen.len() {
                    assert(seen[j] == old_seen[j]);
                }
            }
            assert(saw_sos == (exists|i: int| 0 <= i < seen.len() && #[trigger] is_sos_segment(seen[i]))) by {
                if saw_sos {
                    if is_sos_segment(seg) {
                        assert(is_sos_segment(seen[old_seen.len() as int]));
                    } else {
                        let w = choose|i: int| 0 <= i < old_seen.len() && #[trigger] is_sos_segment(old_seen[i]);
                        assert(seen[w] == old_seen[w]);
                    }
                } else {
                    assert forall|i: int| 0 <= i < seen.len() implies !#[trigger] is_sos_segment(seen[i]) by {
                        if i < old_seen.len() {
                            assert(seen[i] == old_seen[i]);
                        }
                    }
                }
            }
            assert forall|i: int| 0 <= i < seen.len() implies !is_mpf_segment(b, #[trigger] seen[i]) by {
                if i < old_seen.len() {
                    assert(seen[i] == old_seen[i]);
                } else {
                    if marker == 0xe2 && segment_end - payload_start >= 4 {
                        assert(b.subrange(m + 3, m + 7) == bytes@.subrange(payload_start as int, payload_start + 4));
                    }
                }
            }
        }
        offset = next_offset;
    }
    proof {
        assert(jpeg_walk(bytes@, offset as int) == Some(Seq::<JpegSegment>::empty()));
        assert(seen + Seq::<JpegSegment>::empty() =~= seen);
        if seen.len() > 0 {
            assert(seen.last() == seen[seen.len() - 1]);
        }
    }
    Err(ReceiptImageFailureCodeV1::StructureRejected)
}

} // verus!
