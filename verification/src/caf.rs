//! Recovery inspection of the PCM CAF files the native writer produces.
//!
//! A file is recoverable when it starts with the CAF header, declares a
//! 48 kHz mono 16-bit little-endian linear PCM descriptor before its audio
//! data chunk, and that data chunk holds a whole, non-zero number of samples.
use vstd::prelude::*;

use crate::store::StoreError;

verus! {

/// Bytes a file needs before any chunk can be inspected: the header and one chunk header.
pub const CAF_MINIMUM_LENGTH: usize = 20;

/// The IEEE-754 bits of 48000.0, the only sample rate the writer produces.
pub const SAMPLE_RATE_48K_BITS: u64 = 0x40E7_7000_0000_0000;

/// The big-endian unsigned value of `width` bytes starting at `at`.
pub open spec fn be_uint(bytes: Seq<u8>, at: int, width: nat) -> nat
    decreases width,
{
    if width == 0 {
        0
    } else {
        be_uint(bytes, at, (width - 1) as nat) * 256 + bytes[at + width - 1] as nat
    }
}

/// Whether the four bytes at `at` spell `a b c d`.
pub open spec fn tag_is(bytes: Seq<u8>, at: int, a: u8, b: u8, c: u8, d: u8) -> bool {
    &&& bytes[at] == a
    &&& bytes[at + 1] == b
    &&& bytes[at + 2] == c
    &&& bytes[at + 3] == d
}

/// The CAF file header: `caff`, version 1, flags 0.
pub open spec fn has_caf_header(bytes: Seq<u8>) -> bool {
    &&& bytes.len() >= 8
    &&& tag_is(bytes, 0, 0x63, 0x61, 0x66, 0x66)
    &&& tag_is(bytes, 4, 0, 1, 0, 0)
}

pub open spec fn is_desc(bytes: Seq<u8>, at: int) -> bool {
    tag_is(bytes, at, 0x64, 0x65, 0x73, 0x63)
}

pub open spec fn is_data(bytes: Seq<u8>, at: int) -> bool {
    tag_is(bytes, at, 0x64, 0x61, 0x74, 0x61)
}

/// The 32-byte audio description at `at` is 48 kHz, `lpcm`, little-endian
/// signed integer flags, 2 bytes and 1 frame per packet, 1 channel, 16 bits.
pub open spec fn descriptor_ok(bytes: Seq<u8>, at: int) -> bool {
    &&& be_uint(bytes, at, 8) == SAMPLE_RATE_48K_BITS
    &&& tag_is(bytes, at + 8, 0x6c, 0x70, 0x63, 0x6d)
    &&& be_uint(bytes, at + 12, 4) == 2
    &&& be_uint(bytes, at + 16, 4) == 2
    &&& be_uint(bytes, at + 20, 4) == 1
    &&& be_uint(bytes, at + 24, 4) == 1
    &&& be_uint(bytes, at + 28, 4) == 16
}

/// The outcome of inspecting a CAF file.
pub enum CafVerdict {
    /// The data chunk holds this many 16-bit samples.
    Recoverable(nat),
    /// The file is not a recoverable PCM CAF file.
    Unrecoverable,
    /// A declared descriptor runs past the end of the file.
    Truncated,
}

/// Chunk sizes are signed 64-bit; `-1` marks a data chunk that runs to the end of the file.
pub open spec fn size_is_negative(size: nat) -> bool {
    size >= 0x8000_0000_0000_0000
}

pub open spec fn size_is_open_ended(size: nat) -> bool {
    size == 0xFFFF_FFFF_FFFF_FFFF
}

/// The outcome for an audio data chunk whose payload starts at `payload`.
pub open spec fn data_verdict(bytes: Seq<u8>, payload: int, size: nat, described: bool) -> CafVerdict {
    let length = bytes.len() as int;
    if !described || (size_is_negative(size) && !size_is_open_ended(size)) {
        CafVerdict::Unrecoverable
    } else if !size_is_open_ended(size) && payload + size > length {
        CafVerdict::Unrecoverable
    } else {
        let chunk_end = if size_is_open_ended(size) { length } else { payload + size };
        let audio_start = payload + 4;
        if audio_start > chunk_end {
            CafVerdict::Unrecoverable
        } else {
            let audio_bytes = chunk_end - audio_start;
            if audio_bytes == 0 || audio_bytes % 2 != 0 {
                CafVerdict::Unrecoverable
            } else {
                CafVerdict::Recoverable((audio_bytes / 2) as nat)
            }
        }
    }
}

/// Walks the chunks from `offset`; `described` records whether the last
/// descriptor seen matched the writer's format.
pub open spec fn caf_scan(bytes: Seq<u8>, offset: int, described: bool) -> CafVerdict
    decreases bytes.len() - offset,
{
    let length = bytes.len() as int;
    if offset < 0 || offset + 12 > length {
        CafVerdict::Unrecoverable
    } else {
        let size = be_uint(bytes, offset + 4, 8);
        let payload = offset + 12;
        let desc = is_desc(bytes, offset);
        if desc && size != 32 {
            CafVerdict::Unrecoverable
        } else if desc && payload + 32 > length {
            CafVerdict::Truncated
        } else {
            let now_described = if desc { descriptor_ok(bytes, payload) } else { described };
            if is_data(bytes, offset) {
                data_verdict(bytes, payload, size, now_described)
            } else if size_is_negative(size) || payload + size > length {
                CafVerdict::Unrecoverable
            } else {
                caf_scan(bytes, payload + size, now_described)
            }
        }
    }
}

/// The verdict on a whole file.
pub open spec fn caf_verdict(bytes: Seq<u8>) -> CafVerdict {
    if bytes.len() < CAF_MINIMUM_LENGTH || !has_caf_header(bytes) {
        CafVerdict::Unrecoverable
    } else {
        caf_scan(bytes, 8, false)
    }
}

/// `256` to the power `width`.
pub open spec fn byte_limit(width: nat) -> nat
    decreases width,
{
    if width == 0 {
        1
    } else {
        byte_limit((width - 1) as nat) * 256
    }
}

proof fn lemma_byte_limit(width: nat)
    requires
        width <= 8,
    ensures
        byte_limit(width) <= 0x1_0000_0000_0000_0000,
    decreases width,
{
    if width < 8 {
        lemma_byte_limit_grows(width, 8);
    }
    reveal_with_fuel(byte_limit, 9);
}

proof fn lemma_byte_limit_grows(small: nat, large: nat)
    requires
        small <= large,
    ensures
        byte_limit(small) <= byte_limit(large),
    decreases large,
{
    if small < large {
        lemma_byte_limit_grows(small, (large - 1) as nat);
    }
}

proof fn lemma_be_uint_bound(bytes: Seq<u8>, at: int, width: nat)
    requires
        0 <= at,
        at + width <= bytes.len(),
    ensures
        be_uint(bytes, at, width) < byte_limit(width),
    decreases width,
{
    if width > 0 {
        lemma_be_uint_bound(bytes, at, (width - 1) as nat);
        let prefix = be_uint(bytes, at, (width - 1) as nat);
        let limit = byte_limit((width - 1) as nat);
        let byte = bytes[at + width - 1] as nat;
        assert(prefix * 256 + byte < limit * 256) by (nonlinear_arith)
            requires
                prefix < limit,
                byte < 256,
        ;
    }
}

/// Reads the big-endian unsigned value of `width` (at most 8) bytes at `at`.
fn read_be(bytes: &[u8], at: usize, width: usize) -> (value: u64)
    requires
        width <= 8,
        at + width <= bytes@.len(),
    ensures
        value as nat == be_uint(bytes@, at as int, width as nat),
{
    let length = bytes.len();
    let mut value: u64 = 0;
    let mut index: usize = 0;
    while index < width
        invariant
            length == bytes@.len(),
            width <= 8,
            index <= width,
            at + width <= bytes@.len(),
            value as nat == be_uint(bytes@, at as int, index as nat),
        decreases width - index,
    {
        proof {
            lemma_be_uint_bound(bytes@, at as int, (index + 1) as nat);
            lemma_byte_limit((index + 1) as nat);
            assert(be_uint(bytes@, at as int, (index + 1) as nat) == be_uint(bytes@, at as int, index as nat) * 256
                + bytes@[at + index] as nat);
            assert(value * 256 + bytes@[at + index] as nat <= 0xFFFF_FFFF_FFFF_FFFF);
        }
        value = value * 256 + bytes[at + index] as u64;
        index = index + 1;
    }
    value
}

fn tag_matches(bytes: &[u8], at: usize, a: u8, b: u8, c: u8, d: u8) -> (matches: bool)
    requires
        at + 4 <= bytes@.len(),
    ensures
        matches == tag_is(bytes@, at as int, a, b, c, d),
{
    bytes[at] == a && bytes[at + 1] == b && bytes[at + 2] == c && bytes[at + 3] == d
}

fn descriptor_matches(bytes: &[u8], at: usize) -> (matches: bool)
    requires
        at + 32 <= bytes@.len(),
    ensures
        matches == descriptor_ok(bytes@, at as int),
{
    let _length = bytes.len();
    read_be(bytes, at, 8) == SAMPLE_RATE_48K_BITS && tag_matches(bytes, at + 8, 0x6c, 0x70, 0x63, 0x6d)
        && read_be(bytes, at + 12, 4) == 2 && read_be(bytes, at + 16, 4) == 2 && read_be(bytes, at + 20, 4)
        == 1 && read_be(bytes, at + 24, 4) == 1 && read_be(bytes, at + 28, 4) == 16
}

/// How many 16-bit samples a recoverable CAF file holds (`None` when the file
/// is not recoverable); an error when a descriptor runs past the file's end.
pub fn inspect_recoverable_pcm_caf(bytes: &[u8]) -> (result: Result<Option<u64>, StoreError>)
    ensures
        match caf_verdict(bytes@) {
            CafVerdict::Recoverable(samples) => result == Ok::<Option<u64>, StoreError>(Some(samples as u64)),
            CafVerdict::Unrecoverable => result == Ok::<Option<u64>, StoreError>(None),
            CafVerdict::Truncated => result matches Err(StoreError::Io(_)),
        },
{
    let length = bytes.len();
    if length < CAF_MINIMUM_LENGTH {
        return Ok(None);
    }
    if !(tag_matches(bytes, 0, 0x63, 0x61, 0x66, 0x66) && tag_matches(bytes, 4, 0, 1, 0, 0)) {
        return Ok(None);
    }
    let mut offset: usize = 8;
    let mut described = false;
    while offset <= length - 12
        invariant
            length == bytes@.len(),
            length >= CAF_MINIMUM_LENGTH,
            8 <= offset,
            caf_scan(bytes@, offset as int, described) == caf_verdict(bytes@),
        decreases length - offset,
    {
        let size = read_be(bytes, offset + 4, 8);
        let payload = offset + 12;
        if tag_matches(bytes, offset, 0x64, 0x65, 0x73, 0x63) {
            if size != 32 {
                return Ok(None);
            }
            if length - payload < 32 {
                return Err(StoreError::Io(String::from_str("failed to fill whole buffer")));
            }
            described = descriptor_matches(bytes, payload);
        }
        if tag_matches(bytes, offset, 0x64, 0x61, 0x74, 0x61) {
            let open_ended = size == 0xFFFF_FFFF_FFFF_FFFF;
            if !described || (size >= 0x8000_0000_0000_0000 && !open_ended) {
                return Ok(None);
            }
            let chunk_end = if open_ended {
                length
            } else {
                if size > (length - payload) as u64 {
                    return Ok(None);
                }
                payload + size as usize
            };
            if chunk_end - payload < 4 {
                return Ok(None);
            }
            let audio_bytes = chunk_end - payload - 4;
            if audio_bytes == 0 || audio_bytes % 2 != 0 {
                return Ok(None);
            }
            return Ok(Some((audio_bytes / 2) as u64));
        }
        if size >= 0x8000_0000_0000_0000 || size > (length - payload) as u64 {
            return Ok(None);
        }
        offset = payload + size as usize;
    }
    Ok(None)
}

} // verus!
