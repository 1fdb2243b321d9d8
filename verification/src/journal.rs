//! The per-session recovery journal: line framing, the digest chain that
//! binds its records, and the digests themselves.
use sha2::Digest;
use vstd::prelude::*;

use crate::store::{JOURNAL_VERSION, MAX_JOURNAL_RECORD_BYTES};
use crate::text::str_equal;
use crate::validation::{relative_path_ok, utf8, valid_relative_path};

verus! {

// ---------------------------------------------------------------------------
// Digests.

/// The SHA-256 digest of `bytes`.
pub uninterp spec fn sha256_of(bytes: Seq<u8>) -> Seq<u8>;

/// `sha2::Sha256::digest`: the 32-byte SHA-256 digest of `bytes`.
#[verifier::external_body]
pub(crate) fn sha256(bytes: &[u8]) -> (digest: Vec<u8>)
    ensures
        digest@ == sha256_of(bytes@),
        digest@.len() == 32,
{
    sha2::Sha256::digest(bytes).to_vec()
}

pub open spec fn hex_digit(nibble: nat) -> char {
    if nibble < 10 {
        (48 + nibble) as char
    } else {
        (87 + nibble) as char
    }
}

/// Two lower-case hexadecimal digits per byte, most significant first.
pub open spec fn lower_hex(bytes: Seq<u8>) -> Seq<char>
    decreases bytes.len(),
{
    if bytes.len() == 0 {
        Seq::empty()
    } else {
        lower_hex(bytes.drop_last()) + seq![hex_digit(bytes.last() as nat / 16), hex_digit(bytes.last() as nat % 16)]
    }
}

fn hex_str(nibble: u8) -> (text: &'static str)
    requires
        nibble < 16,
    ensures
        text@ == seq![hex_digit(nibble as nat)],
{
    proof {
        reveal_strlit("0");
        reveal_strlit("1");
        reveal_strlit("2");
        reveal_strlit("3");
        reveal_strlit("4");
        reveal_strlit("5");
        reveal_strlit("6");
        reveal_strlit("7");
        reveal_strlit("8");
        reveal_strlit("9");
        reveal_strlit("a");
        reveal_strlit("b");
        reveal_strlit("c");
        reveal_strlit("d");
        reveal_strlit("e");
        reveal_strlit("f");
    }
    match nibble {
        0 => "0",
        1 => "1",
        2 => "2",
        3 => "3",
        4 => "4",
        5 => "5",
        6 => "6",
        7 => "7",
        8 => "8",
        9 => "9",
        10 => "a",
        11 => "b",
        12 => "c",
        13 => "d",
        14 => "e",
        _ => "f",
    }
}

/// Lower-case hexadecimal text of `bytes`.
pub fn to_lower_hex(bytes: &[u8]) -> (text: String)
    ensures
        text@ == lower_hex(bytes@),
{
    let mut text = String::new();
    let mut index: usize = 0;
    while index < bytes.len()
        invariant
            index <= bytes@.len(),
            text@ == lower_hex(bytes@.take(index as int)),
        decreases bytes@.len() - index,
    {
        let byte = bytes[index];
        text.append(hex_str(byte / 16));
        text.append(hex_str(byte % 16));
        assert(bytes@.take(index + 1).drop_last() == bytes@.take(index as int));
        index = index + 1;
    }
    assert(bytes@.take(bytes@.len() as int) == bytes@);
    text
}

/// The lower-case hexadecimal SHA-256 digest of `bytes`, as journal records and sealed segments carry it.
pub fn digest_hex(bytes: &[u8]) -> (digest: String)
    ensures
        digest@ == lower_hex(sha256_of(bytes@)),
        digest@.len() == 64,
{
    let raw = sha256(bytes);
    let text = to_lower_hex(raw.as_slice());
    proof {
        lemma_lower_hex_length(raw@);
    }
    text
}

proof fn lemma_lower_hex_length(bytes: Seq<u8>)
    ensures
        lower_hex(bytes).len() == 2 * bytes.len(),
    decreases bytes.len(),
{
    if bytes.len() > 0 {
        lemma_lower_hex_length(bytes.drop_last());
    }
}

// ---------------------------------------------------------------------------
// Framing.

pub open spec fn is_newline(b: u8) -> bool {
    b == 0x0a
}

/// `spans` are exactly the maximal runs of non-newline bytes in `bytes`, in order.
pub open spec fn lines_of(bytes: Seq<u8>, spans: Seq<(usize, usize)>) -> bool {
    &&& forall|k: int|
        #![trigger spans[k]]
        0 <= k < spans.len() ==> {
            let (start, end) = spans[k];
            &&& start < end <= bytes.len()
            &&& (start == 0 || is_newline(bytes[start - 1]))
            &&& (end == bytes.len() || is_newline(bytes[end as int]))
            &&& forall|i: int| start <= i < end ==> !is_newline(#[trigger] bytes[i])
        }
    &&& forall|k: int| 0 <= k < spans.len() - 1 ==> (#[trigger] spans[k]).1 < spans[k + 1].0
    &&& forall|i: int|
        0 <= i < bytes.len() && !is_newline(#[trigger] bytes[i]) ==> exists|k: int|
            0 <= k < spans.len() && (#[trigger] spans[k]).0 <= i < spans[k].1
}

/// A journal is complete only when it is non-empty and ends with a newline.
pub open spec fn journal_complete(bytes: Seq<u8>) -> bool {
    bytes.len() > 0 && is_newline(bytes.last())
}

/// The record lines of a complete journal, or `None` when the journal is truncated.
pub fn journal_lines(bytes: &[u8]) -> (lines: Option<Vec<(usize, usize)>>)
    ensures
        match lines {
            Some(spans) => journal_complete(bytes@) && lines_of(bytes@, spans@),
            None => !journal_complete(bytes@),
        },
{
    let length = bytes.len();
    if length == 0 || bytes[length - 1] != 0x0a {
        return None;
    }
    let mut spans: Vec<(usize, usize)> = Vec::new();
    let mut index: usize = 0;
    while index < length
        invariant
            length == bytes@.len(),
            length > 0 && is_newline(bytes@[length - 1]),
            index <= length,
            index == 0 || is_newline(bytes@[index - 1]),
            forall|k: int|
                #![trigger spans@[k]]
                0 <= k < spans@.len() ==> {
                    let (start, end) = spans@[k];
                    &&& start < end < index
                    &&& (start == 0 || is_newline(bytes@[start - 1]))
                    &&& is_newline(bytes@[end as int])
                    &&& forall|i: int| start <= i < end ==> !is_newline(#[trigger] bytes@[i])
                },
            forall|k: int| 0 <= k < spans@.len() - 1 ==> (#[trigger] spans@[k]).1 < spans@[k + 1].0,
            forall|i: int|
                0 <= i < index && !is_newline(#[trigger] bytes@[i]) ==> exists|k: int|
                    0 <= k < spans@.len() && (#[trigger] spans@[k]).0 <= i < spans@[k].1,
        decreases length - index,
    {
        let start = index;
        while index < length && bytes[index] != 0x0a
            invariant
                length == bytes@.len(),
                length > 0 && is_newline(bytes@[length - 1]),
                start < length,
                start <= index <= length,
                forall|i: int| start <= i < index ==> !is_newline(#[trigger] bytes@[i]),
            decreases length - index,
        {
            index = index + 1;
        }
        // The journal ends with a newline, so the run stops at one.
        assert(index < length) by {
            if index == length {
                assert(!is_newline(bytes@[length - 1]));
            }
        }
        if index > start {
            let ghost before = spans@;
            spans.push((start, index));
            assert forall|i: int|
                0 <= i < index + 1 && !is_newline(#[trigger] bytes@[i]) implies exists|k: int|
                0 <= k < spans@.len() && (#[trigger] spans@[k]).0 <= i < spans@[k].1 by {
                if i >= start {
                    assert(spans@[before.len() as int] == (start, index));
                } else {
                    let k = choose|k: int| 0 <= k < before.len() && (#[trigger] before[k]).0 <= i < before[k].1;
                    assert(spans@[k] == before[k]);
                }
            }
        }
        index = index + 1;
    }
    Some(spans)
}

// ---------------------------------------------------------------------------
// The record chain.

/// What a record line's parse yields, in the order the journal holds them.
pub enum JournalLine {
    /// The line is longer than `MAX_JOURNAL_RECORD_BYTES`.
    TooLong,
    /// The line is not a journal record.
    Unparseable,
    /// A parsed record, with the digest of its body as re-encoded.
    Parsed(RecordFacts),
}

/// The fields of one parsed record that bind it into the chain.
pub struct RecordFacts {
    pub version: u32,
    pub sequence: u64,
    pub session_id: String,
    pub relative_path: Option<String>,
    pub prior_digest: Option<String>,
    pub record_digest: String,
    /// The digest of the record's body, computed afresh by the reader.
    pub body_digest: String,
}

/// The verdict on a whole journal.
#[derive(Clone, Copy, Debug, Eq, PartialEq, Structural)]
pub enum JournalValidation {
    Valid,
    Truncated,
    Malformed,
    IntegrityMismatch,
    UnsupportedVersion,
}

pub open spec fn text_view(text: Option<String>) -> Option<Seq<char>> {
    match text {
        Some(t) => Some(t@),
        None => None,
    }
}

/// Whether a parsed record is the `position`-th (0-based) record of the
/// chain for `session`, following a record whose digest was `prior`.
pub open spec fn record_links(record: RecordFacts, position: int, session: Seq<char>, prior: Option<Seq<char>>) -> bool {
    &&& record.sequence == position + 1
    &&& record.session_id@ == session
    &&& text_view(record.prior_digest) == prior
    &&& record.record_digest@ == record.body_digest@
    &&& match record.relative_path {
        Some(path) => relative_path_ok(utf8(path@)),
        None => true,
    }
}

/// The verdict on the lines from `position` on, given the digest of the record before them.
pub open spec fn chain_verdict(
    lines: Seq<JournalLine>,
    position: int,
    session: Seq<char>,
    prior: Option<Seq<char>>,
) -> JournalValidation
    decreases lines.len() - position,
{
    if position < 0 || position >= lines.len() {
        JournalValidation::Valid
    } else {
        match lines[position] {
            JournalLine::TooLong => JournalValidation::Malformed,
            JournalLine::Unparseable => JournalValidation::Malformed,
            JournalLine::Parsed(record) => {
                if record.version != JOURNAL_VERSION {
                    JournalValidation::UnsupportedVersion
                } else if !record_links(record, position, session, prior) {
                    JournalValidation::IntegrityMismatch
                } else {
                    chain_verdict(lines, position + 1, session, Some(record.record_digest@))
                }
            },
        }
    }
}

/// The digest of the journal's last record, if it ends with a parsed record.
pub open spec fn chain_tip(lines: Seq<JournalLine>) -> Option<Seq<char>> {
    if lines.len() == 0 {
        None
    } else {
        match lines.last() {
            JournalLine::Parsed(record) => Some(record.record_digest@),
            _ => None,
        }
    }
}

proof fn lemma_chain_extend(
    lines: Seq<JournalLine>,
    extra: JournalLine,
    position: int,
    session: Seq<char>,
    prior: Option<Seq<char>>,
)
    requires
        0 <= position <= lines.len(),
        chain_verdict(lines, position, session, prior) == JournalValidation::Valid,
    ensures
        chain_verdict(lines.push(extra), position, session, prior) == chain_verdict(
            lines.push(extra),
            lines.len() as int,
            session,
            if position == lines.len() {
                prior
            } else {
                chain_tip(lines)
            },
        ),
    decreases lines.len() - position,
{
    if position < lines.len() {
        assert(lines.push(extra)[position] == lines[position]);
        match lines[position] {
            JournalLine::Parsed(record) => {
                lemma_chain_extend(lines, extra, position + 1, session, Some(record.record_digest@));
            },
            _ => {},
        }
    }
}

/// Appending a record to a valid journal keeps it valid exactly when the
/// record carries the journal version and links to the journal: the next
/// sequence number, the same session, and the digest of the last record
/// (none for the first record).
pub proof fn lemma_chain_append(lines: Seq<JournalLine>, session: Seq<char>, record: RecordFacts)
    requires
        chain_verdict(lines, 0, session, None) == JournalValidation::Valid,
    ensures
        chain_verdict(lines.push(JournalLine::Parsed(record)), 0, session, None) == if record.version
            != JOURNAL_VERSION {
            JournalValidation::UnsupportedVersion
        } else if record_links(record, lines.len() as int, session, chain_tip(lines)) {
            JournalValidation::Valid
        } else {
            JournalValidation::IntegrityMismatch
        },
{
    let extended = lines.push(JournalLine::Parsed(record));
    lemma_chain_extend(lines, JournalLine::Parsed(record), 0, session, None);
    assert(extended[lines.len() as int] == JournalLine::Parsed(record));
    assert(chain_verdict(extended, lines.len() + 1int, session, Some(record.record_digest@))
        == JournalValidation::Valid);
}

fn same_text(left: &Option<String>, right: &Option<String>) -> (same: bool)
    ensures
        same == (text_view(*left) == text_view(*right)),
{
    match (left, right) {
        (Some(a), Some(b)) => str_equal(a.as_str(), b.as_str()),
        (None, None) => true,
        _ => false,
    }
}

/// Checks that the records of a complete journal form one unbroken chain for `session_id`.
pub fn validate_journal_chain(lines: &Vec<JournalLine>, session_id: &str) -> (verdict: JournalValidation)
    ensures
        verdict == chain_verdict(lines@, 0, session_id@, None),
{
    let mut prior: Option<String> = None;
    let mut index: usize = 0;
    while index < lines.len()
        invariant
            index <= lines@.len(),
            chain_verdict(lines@, index as int, session_id@, text_view(prior)) == chain_verdict(
                lines@,
                0,
                session_id@,
                None,
            ),
        decreases lines@.len() - index,
    {
        match &lines[index] {
            JournalLine::TooLong => {
                return JournalValidation::Malformed;
            },
            JournalLine::Unparseable => {
                return JournalValidation::Malformed;
            },
            JournalLine::Parsed(record) => {
                if record.version != JOURNAL_VERSION {
                    return JournalValidation::UnsupportedVersion;
                }
                let path_ok = match &record.relative_path {
                    Some(path) => valid_relative_path(path.as_str()),
                    None => true,
                };
                if index as u64 >= 0xFFFF_FFFF_FFFF_FFFF || record.sequence != index as u64 + 1 || !str_equal(
                    record.session_id.as_str(),
                    session_id,
                ) || !same_text(&record.prior_digest, &prior) || !str_equal(
                    record.record_digest.as_str(),
                    record.body_digest.as_str(),
                ) || !path_ok {
                    return JournalValidation::IntegrityMismatch;
                }
                prior = Some(record.record_digest.clone());
            },
        }
        index = index + 1;
    }
    JournalValidation::Valid
}

/// Whether the line of a record exceeds the journal's record bound.
pub fn line_too_long(start: usize, end: usize) -> (too_long: bool)
    requires
        start <= end,
    ensures
        too_long == (end - start > MAX_JOURNAL_RECORD_BYTES),
{
    end - start > MAX_JOURNAL_RECORD_BYTES
}

} // verus!
