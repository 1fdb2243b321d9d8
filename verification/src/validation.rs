//! Shape checks on requests and receipts before any durable state is touched.
use vstd::prelude::*;
use vstd::std_specs::iter::IteratorSpec;

use crate::text::str_equal;
use crate::store::{
    AuthorizeMediaOpenRequest, FirstSampleReceipt, MediaOpenReceipt, MediaSourceKind, PrepareSessionRequest,
    SealSegmentReceipt, StoreError, MAX_DISPLAY_NAME_BYTES, MAX_TITLE_BYTES, MEDIA_FORMAT_CAF_PCM_S16LE,
    MEDIA_SAMPLE_RATE_HZ,
};

verus! {

broadcast use vstd::string::group_string_axioms;

/// The characters with the Unicode `White_Space` property.
pub open spec fn is_white_space(c: char) -> bool {
    let v = c as u32;
    (0x09 <= v <= 0x0D) || v == 0x20 || v == 0x85 || v == 0xA0 || v == 0x1680 || (0x2000 <= v <= 0x200A) || v
        == 0x2028 || v == 0x2029 || v == 0x202F || v == 0x205F || v == 0x3000
}

/// Whether trimming `text` leaves nothing.
pub open spec fn blank(text: Seq<char>) -> bool {
    forall|i: int| 0 <= i < text.len() ==> is_white_space(#[trigger] text[i])
}

fn white_space(c: char) -> (yes: bool)
    ensures
        yes == is_white_space(c),
{
    let v = c as u32;
    (0x09 <= v && v <= 0x0D) || v == 0x20 || v == 0x85 || v == 0xA0 || v == 0x1680 || (0x2000 <= v && v <= 0x200A)
        || v == 0x2028 || v == 0x2029 || v == 0x202F || v == 0x205F || v == 0x3000
}

/// Whether `text` holds only white space.
pub fn is_blank(text: &str) -> (yes: bool)
    ensures
        yes == blank(text@),
{
    let mut chars = text.chars();
    let ghost mut seen: int = 0;
    loop
        invariant
            0 <= seen <= text@.len(),
            chars.remaining() == text@.skip(seen),
            chars.obeys_prophetic_iter_laws(),
            forall|i: int| 0 <= i < seen ==> is_white_space(#[trigger] text@[i]),
        decreases text@.len() - seen,
    {
        match chars.next() {
            Some(c) => {
                assert(c == text@[seen]);
                if !white_space(c) {
                    return false;
                }
                proof {
                    seen = seen + 1;
                }
            },
            None => {
                assert(seen == text@.len());
                return true;
            },
        }
    }
}

// ---------------------------------------------------------------------------
// Identifiers.

pub open spec fn is_hex_digit(c: char) -> bool {
    ('0' <= c <= '9') || ('a' <= c <= 'f') || ('A' <= c <= 'F')
}

/// Thirty-two hexadecimal digits.
pub open spec fn simple_uuid(text: Seq<char>) -> bool {
    text.len() == 32 && forall|i: int| 0 <= i < 32 ==> is_hex_digit(#[trigger] text[i])
}

/// Thirty-two hexadecimal digits in groups of 8-4-4-4-12 separated by hyphens.
pub open spec fn hyphenated_uuid(text: Seq<char>) -> bool {
    &&& text.len() == 36
    &&& forall|i: int|
        0 <= i < 36 ==> if i == 8 || i == 13 || i == 18 || i == 23 {
            #[trigger] text[i] == '-'
        } else {
            is_hex_digit(text[i])
        }
}

pub open spec fn ascii_lower(c: char) -> char {
    if 'A' <= c <= 'Z' {
        ((c as u32) + 32) as char
    } else {
        c
    }
}

/// The texts the identifier parser accepts: simple, hyphenated, braced
/// hyphenated, or hyphenated behind a case-insensitive `urn:uuid:` prefix.
pub open spec fn uuid_text(text: Seq<char>) -> bool {
    ||| simple_uuid(text)
    ||| hyphenated_uuid(text)
    ||| (text.len() == 38 && text[0] == '{' && text[37] == '}' && hyphenated_uuid(text.subrange(1, 37)))
    ||| (text.len() == 45 && (forall|i: int| 0 <= i < 9 ==> ascii_lower(#[trigger] text[i]) == "urn:uuid:"@[i])
        && hyphenated_uuid(text.subrange(9, 45)))
}

/// Whether `text` parses as an identifier: `uuid::Uuid::parse_str` succeeds
/// exactly on the simple, hyphenated, braced and URN forms of 32 hex digits.
#[verifier::external_body]
pub(crate) fn parses_as_uuid(text: &str) -> (valid: bool)
    ensures
        valid == uuid_text(text@),
{
    uuid::Uuid::parse_str(text).is_ok()
}

// ---------------------------------------------------------------------------
// Requests.

/// The UTF-8 encoding of `text`.
pub open spec fn utf8(text: Seq<char>) -> Seq<u8> {
    vstd::utf8::encode_utf8(text)
}

/// The length of the UTF-8 encoding of `text`.
pub open spec fn byte_length(text: Seq<char>) -> usize {
    vstd::utf8::encode_utf8(text).len() as usize
}

/// The title rule: not blank, at most `MAX_TITLE_BYTES` bytes of UTF-8.
pub open spec fn request_verdict(request: PrepareSessionRequest) -> Result<(), StoreError> {
    if blank(request.title@) {
        Err(StoreError::InvalidRequest("title is empty"))
    } else if byte_length(request.title@) > MAX_TITLE_BYTES {
        Err(StoreError::InvalidRequest("title exceeds byte limit"))
    } else {
        Ok(())
    }
}

pub fn validate_request(request: &PrepareSessionRequest) -> (verdict: Result<(), StoreError>)
    ensures
        verdict == request_verdict(*request),
{
    if is_blank(request.title.as_str()) {
        return Err(StoreError::InvalidRequest("title is empty"));
    }
    if request.title.as_str().len() > MAX_TITLE_BYTES {
        return Err(StoreError::InvalidRequest("title exceeds byte limit"));
    }
    Ok(())
}

/// The display-name rule of a media authorization request.
pub open spec fn media_request_verdict(request: AuthorizeMediaOpenRequest) -> Result<(), StoreError> {
    if !uuid_text(request.session_id.0@) {
        Err(StoreError::InvalidRequest("session ID is not a UUID"))
    } else if blank(request.source_display_name@) {
        Err(StoreError::InvalidRequest("source display name is empty"))
    } else if byte_length(request.source_display_name@) > MAX_DISPLAY_NAME_BYTES {
        Err(StoreError::InvalidRequest("source display name exceeds byte limit"))
    } else {
        Ok(())
    }
}

pub fn validate_media_request(request: &AuthorizeMediaOpenRequest) -> (verdict: Result<(), StoreError>)
    ensures
        verdict == media_request_verdict(*request),
{
    if !parses_as_uuid(request.session_id.0.as_str()) {
        return Err(StoreError::InvalidRequest("session ID is not a UUID"));
    }
    if is_blank(request.source_display_name.as_str()) {
        return Err(StoreError::InvalidRequest("source display name is empty"));
    }
    if request.source_display_name.as_str().len() > MAX_DISPLAY_NAME_BYTES {
        return Err(StoreError::InvalidRequest("source display name exceeds byte limit"));
    }
    Ok(())
}

// ---------------------------------------------------------------------------
// Required-source plans.

/// The canonical form of a plan: each named kind once, in the order of their persisted names.
pub open spec fn canonical_plan(kinds: Seq<MediaSourceKind>) -> Seq<MediaSourceKind> {
    let application = if kinds.contains(MediaSourceKind::ApplicationAudio) {
        seq![MediaSourceKind::ApplicationAudio]
    } else {
        Seq::empty()
    };
    let microphone = if kinds.contains(MediaSourceKind::Microphone) {
        seq![MediaSourceKind::Microphone]
    } else {
        Seq::empty()
    };
    let system = if kinds.contains(MediaSourceKind::SystemAudio) {
        seq![MediaSourceKind::SystemAudio]
    } else {
        Seq::empty()
    };
    application + microphone + system
}

pub open spec fn plan_verdict(kinds: Seq<MediaSourceKind>) -> Result<Seq<MediaSourceKind>, StoreError> {
    if kinds.len() == 0 || kinds.len() > 3 {
        Err(StoreError::InvalidRequest("required-source plan must contain one to three sources"))
    } else {
        Ok(canonical_plan(kinds))
    }
}

/// A normalized plan depends only on which kinds are named, not on their
/// order or repetition; it names each kind once, and normalizing it again
/// changes nothing.
pub proof fn lemma_plan_normal_form(kinds: Seq<MediaSourceKind>, other: Seq<MediaSourceKind>)
    requires
        forall|kind: MediaSourceKind| kinds.contains(kind) <==> other.contains(kind),
    ensures
        canonical_plan(kinds) == canonical_plan(other),
        canonical_plan(kinds).no_duplicates(),
        forall|kind: MediaSourceKind| #[trigger] canonical_plan(kinds).contains(kind) <==> kinds.contains(kind),
        canonical_plan(canonical_plan(kinds)) == canonical_plan(kinds),
{
    let plan = canonical_plan(kinds);
    assert forall|kind: MediaSourceKind| #[trigger] plan.contains(kind) <==> kinds.contains(kind) by {
        if kinds.contains(kind) {
            match kind {
                MediaSourceKind::ApplicationAudio => assert(plan[0] == kind),
                MediaSourceKind::Microphone => {
                    let at = if kinds.contains(MediaSourceKind::ApplicationAudio) { 1int } else { 0int };
                    assert(plan[at] == kind);
                },
                MediaSourceKind::SystemAudio => assert(plan[plan.len() - 1] == kind),
            }
        }
        if plan.contains(kind) {
            let at = choose|i: int| 0 <= i < plan.len() && plan[i] == kind;
            assert(plan[at] == kind);
        }
    }
    assert(plan.contains(MediaSourceKind::ApplicationAudio) == kinds.contains(MediaSourceKind::ApplicationAudio));
    assert(plan.contains(MediaSourceKind::Microphone) == kinds.contains(MediaSourceKind::Microphone));
    assert(plan.contains(MediaSourceKind::SystemAudio) == kinds.contains(MediaSourceKind::SystemAudio));
    assert(other.contains(MediaSourceKind::ApplicationAudio) == kinds.contains(MediaSourceKind::ApplicationAudio));
    assert(other.contains(MediaSourceKind::Microphone) == kinds.contains(MediaSourceKind::Microphone));
    assert(other.contains(MediaSourceKind::SystemAudio) == kinds.contains(MediaSourceKind::SystemAudio));
    assert(canonical_plan(plan) == plan);
}

fn plan_names(kinds: &Vec<MediaSourceKind>, wanted: MediaSourceKind) -> (named: bool)
    ensures
        named == kinds@.contains(wanted),
{
    let mut index: usize = 0;
    while index < kinds.len()
        invariant
            index <= kinds.len(),
            forall|j: int| 0 <= j < index ==> kinds@[j] != wanted,
        decreases kinds.len() - index,
    {
        if kinds[index] == wanted {
            return true;
        }
        index = index + 1;
    }
    false
}

/// Sorts and de-duplicates a plan of one to three source kinds.
pub fn normalized_source_kinds(required_sources: Vec<MediaSourceKind>) -> (plan: Result<
    Vec<MediaSourceKind>,
    StoreError,
>)
    ensures
        match plan {
            Ok(kinds) => plan_verdict(required_sources@) == Ok::<Seq<MediaSourceKind>, StoreError>(kinds@),
            Err(error) => plan_verdict(required_sources@) == Err::<Seq<MediaSourceKind>, StoreError>(error),
        },
{
    if required_sources.len() == 0 || required_sources.len() > 3 {
        return Err(StoreError::InvalidRequest("required-source plan must contain one to three sources"));
    }
    let mut plan: Vec<MediaSourceKind> = Vec::new();
    if plan_names(&required_sources, MediaSourceKind::ApplicationAudio) {
        plan.push(MediaSourceKind::ApplicationAudio);
    }
    if plan_names(&required_sources, MediaSourceKind::Microphone) {
        plan.push(MediaSourceKind::Microphone);
    }
    if plan_names(&required_sources, MediaSourceKind::SystemAudio) {
        plan.push(MediaSourceKind::SystemAudio);
    }
    assert(plan@ == canonical_plan(required_sources@));
    Ok(plan)
}

// ---------------------------------------------------------------------------
// Managed relative paths, read as the bytes of their UTF-8 encoding.

pub open spec fn is_slash(b: u8) -> bool {
    b == 0x2f
}

pub open spec fn is_dot(b: u8) -> bool {
    b == 0x2e
}

/// A `..` component begins at `i`.
pub open spec fn parent_component_at(path: Seq<u8>, i: int) -> bool {
    &&& 0 <= i
    &&& i + 1 < path.len()
    &&& (i == 0 || is_slash(path[i - 1]))
    &&& is_dot(path[i])
    &&& is_dot(path[i + 1])
    &&& (i + 2 == path.len() || is_slash(path[i + 2]))
}

/// Relative, and every component is a plain name or `.`.
pub open spec fn relative_path_ok(path: Seq<u8>) -> bool {
    &&& !(path.len() > 0 && is_slash(path[0]))
    &&& forall|i: int| !#[trigger] parent_component_at(path, i)
}

/// A component other than `.` begins at `i`.
pub open spec fn named_component_at(path: Seq<u8>, i: int) -> bool {
    &&& 0 <= i < path.len()
    &&& (i == 0 || is_slash(path[i - 1]))
    &&& !is_slash(path[i])
    &&& !(is_dot(path[i]) && (i + 1 == path.len() || is_slash(path[i + 1])))
}

/// How many components other than `.` begin before `end`.
pub open spec fn named_components(path: Seq<u8>, end: int) -> nat
    decreases end,
{
    if end <= 0 {
        0
    } else {
        named_components(path, end - 1) + if named_component_at(path, end - 1) {
            1nat
        } else {
            0nat
        }
    }
}

/// `audio/<track>/<file>.caf`: a relative path of exactly three components
/// under the session's audio directory, naming a CAF file.
pub open spec fn media_path_ok(path: Seq<u8>) -> bool {
    &&& relative_path_ok(path)
    &&& path.len() >= 6
    &&& path.subrange(0, 6) == seq![0x61u8, 0x75u8, 0x64u8, 0x69u8, 0x6fu8, 0x2fu8]
    &&& path.len() >= 4
    &&& path.subrange(path.len() - 4, path.len() as int) == seq![0x2eu8, 0x63u8, 0x61u8, 0x66u8]
    &&& named_components(path, path.len() as int) == 3
}

/// Whether `relative_path` is relative and free of `..` components.
pub fn valid_relative_path(relative_path: &str) -> (ok: bool)
    ensures
        ok == relative_path_ok(utf8(relative_path@)),
{
    let path = relative_path.as_bytes();
    assert(path@ == utf8(relative_path@));
    let length = path.len();
    if length > 0 && path[0] == 0x2f {
        return false;
    }
    let mut index: usize = 0;
    while index < length
        invariant
            length == path@.len(),
            path@ == utf8(relative_path@),
            index <= length,
            forall|i: int| 0 <= i < index ==> !#[trigger] parent_component_at(path@, i),
        decreases length - index,
    {
        if index + 1 < length && (index == 0 || path[index - 1] == 0x2f) && path[index] == 0x2e && path[index + 1]
            == 0x2e && (index + 2 == length || path[index + 2] == 0x2f) {
            assert(parent_component_at(path@, index as int));
            return false;
        }
        index = index + 1;
    }
    assert forall|i: int| !#[trigger] parent_component_at(path@, i) by {
        if 0 <= i < length {
        }
    }
    true
}

fn count_named_components(path: &[u8]) -> (count: usize)
    ensures
        count == named_components(path@, path@.len() as int),
{
    let length = path.len();
    let mut count: usize = 0;
    let mut index: usize = 0;
    while index < length
        invariant
            length == path@.len(),
            index <= length,
            count <= index,
            count == named_components(path@, index as int),
        decreases length - index,
    {
        if (index == 0 || path[index - 1] == 0x2f) && path[index] != 0x2f && !(path[index] == 0x2e && (index + 1
            == length || path[index + 1] == 0x2f)) {
            count = count + 1;
        }
        index = index + 1;
    }
    count
}

/// Whether `relative_path` names a CAF file directly inside a track directory under `audio/`.
pub fn valid_media_relative_path(relative_path: &str) -> (ok: bool)
    ensures
        ok == media_path_ok(utf8(relative_path@)),
{
    if !valid_relative_path(relative_path) {
        return false;
    }
    let path = relative_path.as_bytes();
    let length = path.len();
    if length < 6 {
        return false;
    }
    if !(path[0] == 0x61 && path[1] == 0x75 && path[2] == 0x64 && path[3] == 0x69 && path[4] == 0x6f && path[5]
        == 0x2f) {
        assert(path@.subrange(0, 6)[0] == path@[0]);
        assert(path@.subrange(0, 6)[5] == path@[5]);
        return false;
    }
    assert(path@.subrange(0, 6) == seq![0x61u8, 0x75u8, 0x64u8, 0x69u8, 0x6fu8, 0x2fu8]);
    if !(path[length - 4] == 0x2e && path[length - 3] == 0x63 && path[length - 2] == 0x61 && path[length - 1]
        == 0x66) {
        assert(path@.subrange(length - 4, length as int)[0] == path@[length - 4]);
        assert(path@.subrange(length - 4, length as int)[3] == path@[length - 1]);
        return false;
    }
    assert(path@.subrange(length - 4, length as int) == seq![0x2eu8, 0x63u8, 0x61u8, 0x66u8]);
    count_named_components(path) == 3
}

// ---------------------------------------------------------------------------
// Writer receipts.

pub open spec fn identities_ok(session: Seq<char>, track: Seq<char>, segment: Seq<char>, token: Seq<char>) -> bool {
    uuid_text(session) && uuid_text(track) && uuid_text(segment) && uuid_text(token)
}

fn identities_valid(session: &str, track: &str, segment: &str, token: &str) -> (ok: bool)
    ensures
        ok == identities_ok(session@, track@, segment@, token@),
{
    parses_as_uuid(session) && parses_as_uuid(track) && parses_as_uuid(segment) && parses_as_uuid(token)
}

/// The largest value a signed 64-bit column holds.
pub open spec fn fits_i64(value: u64) -> bool {
    value <= 0x7FFF_FFFF_FFFF_FFFF
}

pub open spec fn media_receipt_verdict(receipt: MediaOpenReceipt) -> Result<(), StoreError> {
    if !identities_ok(receipt.session_id.0@, receipt.track_id@, receipt.segment_id@, receipt.open_token@) {
        Err(StoreError::InvalidRequest("media receipt identity is not a UUID"))
    } else if receipt.writer_generation != 1 || receipt.media_format@ != MEDIA_FORMAT_CAF_PCM_S16LE@
        || receipt.sample_rate_hz != MEDIA_SAMPLE_RATE_HZ || receipt.channels != 1 || !media_path_ok(
        utf8(receipt.relative_path@),
    ) {
        Err(StoreError::InvalidRequest("media receipt format or path is unsupported"))
    } else {
        Ok(())
    }
}

pub fn validate_media_receipt_shape(receipt: &MediaOpenReceipt) -> (verdict: Result<(), StoreError>)
    ensures
        verdict == media_receipt_verdict(*receipt),
{
    if !identities_valid(
        receipt.session_id.0.as_str(),
        receipt.track_id.as_str(),
        receipt.segment_id.as_str(),
        receipt.open_token.as_str(),
    ) {
        return Err(StoreError::InvalidRequest("media receipt identity is not a UUID"));
    }
    if receipt.writer_generation != 1 || !str_equal(receipt.media_format.as_str(), MEDIA_FORMAT_CAF_PCM_S16LE)
        || receipt.sample_rate_hz != MEDIA_SAMPLE_RATE_HZ || receipt.channels != 1 || !valid_media_relative_path(
        receipt.relative_path.as_str(),
    ) {
        return Err(StoreError::InvalidRequest("media receipt format or path is unsupported"));
    }
    Ok(())
}

pub open spec fn first_sample_receipt_verdict(receipt: FirstSampleReceipt) -> Result<(), StoreError> {
    if !identities_ok(receipt.session_id.0@, receipt.track_id@, receipt.segment_id@, receipt.open_token@) {
        Err(StoreError::InvalidRequest("first-sample receipt identity is not a UUID"))
    } else if receipt.writer_generation != 1 || !media_path_ok(utf8(receipt.relative_path@)) {
        Err(StoreError::InvalidRequest("first-sample receipt path or writer generation is unsupported"))
    } else if receipt.first_sample_host_time == 0 || !fits_i64(receipt.first_sample_host_time)
        || receipt.first_sample_frame_count == 0 || !fits_i64(receipt.first_sample_frame_count) || !fits_i64(
        receipt.observed_byte_length,
    ) {
        Err(StoreError::InvalidRequest("first-sample timing, frame count, or length is invalid"))
    } else {
        Ok(())
    }
}

pub fn validate_first_sample_receipt_shape(receipt: &FirstSampleReceipt) -> (verdict: Result<(), StoreError>)
    ensures
        verdict == first_sample_receipt_verdict(*receipt),
{
    if !identities_valid(
        receipt.session_id.0.as_str(),
        receipt.track_id.as_str(),
        receipt.segment_id.as_str(),
        receipt.open_token.as_str(),
    ) {
        return Err(StoreError::InvalidRequest("first-sample receipt identity is not a UUID"));
    }
    if receipt.writer_generation != 1 || !valid_media_relative_path(receipt.relative_path.as_str()) {
        return Err(StoreError::InvalidRequest("first-sample receipt path or writer generation is unsupported"));
    }
    if receipt.first_sample_host_time == 0 || receipt.first_sample_host_time > 0x7FFF_FFFF_FFFF_FFFF
        || receipt.first_sample_frame_count == 0 || receipt.first_sample_frame_count > 0x7FFF_FFFF_FFFF_FFFF
        || receipt.observed_byte_length > 0x7FFF_FFFF_FFFF_FFFF {
        return Err(StoreError::InvalidRequest("first-sample timing, frame count, or length is invalid"));
    }
    Ok(())
}

pub open spec fn seal_receipt_verdict(receipt: SealSegmentReceipt) -> Result<(), StoreError> {
    if !identities_ok(receipt.session_id.0@, receipt.track_id@, receipt.segment_id@, receipt.open_token@) {
        Err(StoreError::InvalidRequest("segment-seal receipt identity is not a UUID"))
    } else if receipt.writer_generation != 1 || !media_path_ok(utf8(receipt.relative_path@)) {
        Err(StoreError::InvalidRequest("segment-seal receipt path or writer generation is unsupported"))
    } else if receipt.final_sample_host_time == 0 || !fits_i64(receipt.final_sample_host_time)
        || receipt.sample_count == 0 || !fits_i64(receipt.sample_count) || !fits_i64(receipt.final_byte_length) {
        Err(StoreError::InvalidRequest("segment-seal timing, sample count, or length is invalid"))
    } else {
        Ok(())
    }
}

pub fn validate_seal_receipt_shape(receipt: &SealSegmentReceipt) -> (verdict: Result<(), StoreError>)
    ensures
        verdict == seal_receipt_verdict(*receipt),
{
    if !identities_valid(
        receipt.session_id.0.as_str(),
        receipt.track_id.as_str(),
        receipt.segment_id.as_str(),
        receipt.open_token.as_str(),
    ) {
        return Err(StoreError::InvalidRequest("segment-seal receipt identity is not a UUID"));
    }
    if receipt.writer_generation != 1 || !valid_media_relative_path(receipt.relative_path.as_str()) {
        return Err(StoreError::InvalidRequest("segment-seal receipt path or writer generation is unsupported"));
    }
    if receipt.final_sample_host_time == 0 || receipt.final_sample_host_time > 0x7FFF_FFFF_FFFF_FFFF
        || receipt.sample_count == 0 || receipt.sample_count > 0x7FFF_FFFF_FFFF_FFFF || receipt.final_byte_length
        > 0x7FFF_FFFF_FFFF_FFFF {
        return Err(StoreError::InvalidRequest("segment-seal timing, sample count, or length is invalid"));
    }
    Ok(())
}

} // verus!
