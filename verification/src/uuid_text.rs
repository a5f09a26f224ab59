use crate::digest_text::{hex_char, hex_digit};
use vstd::prelude::*;
use vstd::string::StringExecFns;

verus! {

/// The 16 bytes that `uuid` parses `text` into, in any of its accepted forms.
pub uninterp spec fn uuid_parse(text: Seq<char>) -> Option<Seq<u8>>;

/// The hyphens of the canonical form stand before bytes 4, 6, 8 and 10.
pub open spec fn hyphen_before(i: int) -> bool {
    i == 4 || i == 6 || i == 8 || i == 10
}

/// The canonical text of the first `n` bytes: two lower-case hexadecimal
/// digits a byte, with a hyphen before bytes 4, 6, 8 and 10.
pub open spec fn hyphenated_prefix(bytes: Seq<u8>, n: int) -> Seq<char>
    decreases n,
{
    if n <= 0 {
        Seq::empty()
    } else {
        hyphenated_prefix(bytes, n - 1) + (if hyphen_before(n - 1) {
            seq!['-']
        } else {
            Seq::empty()
        }) + seq![hex_char((bytes[n - 1] / 16) as int), hex_char((bytes[n - 1] % 16) as int)]
    }
}

/// The lower-case hyphenated form of a UUID: its 16 bytes as 8-4-4-4-12
/// hexadecimal digits.
pub open spec fn uuid_hyphenated(bytes: Seq<u8>) -> Seq<char> {
    hyphenated_prefix(bytes, bytes.len() as int)
}

/// `uuid::Uuid::parse_str`: the bytes of the UUID written in `text`, or `None`
/// when it is no UUID.
#[verifier::external_body]
pub(crate) fn parse_uuid_bytes(text: &str) -> (bytes: Option<[u8; 16]>)
    ensures
        match bytes {
            Some(b) => uuid_parse(text@) == Some(b@),
            None => uuid_parse(text@) is None,
        },
{
    uuid::Uuid::parse_str(text).ok().map(|value| *value.as_bytes())
}

/// The canonical text of a UUID, as `uuid::Uuid::hyphenated` writes it.
pub(crate) fn hyphenated_text(bytes: [u8; 16]) -> (text: String)
    ensures
        text@ == uuid_hyphenated(bytes@),
{
    let mut text = String::new();
    let mut i: usize = 0;
    while i < 16
        invariant
            i <= 16,
            bytes@.len() == 16,
            text@ == hyphenated_prefix(bytes@, i as int),
        decreases 16 - i,
    {
        let ghost before = text@;
        if i == 4 || i == 6 || i == 8 || i == 10 {
            text.append("-");
        }
        let ghost hyphen = text@;
        let b = bytes[i];
        text.append(hex_digit(b / 16));
        text.append(hex_digit(b % 16));
        proof {
            reveal_strlit("-");
            if hyphen_before(i as int) {
                assert(hyphen =~= before + seq!['-']);
            } else {
                assert(hyphen =~= before + Seq::<char>::empty());
            }
            assert(text@ =~= hyphenated_prefix(bytes@, i + 1));
        }
        i = i + 1;
    }
    text
}

/// Version 4 of RFC 4122: the version nibble of byte 6 is 4 and the variant
/// bits of byte 8 are `10`.
pub open spec fn is_version4(bytes: Seq<u8>) -> bool {
    &&& bytes.len() == 16
    &&& bytes[6] & 0xf0u8 == 0x40u8
    &&& bytes[8] & 0xc0u8 == 0x80u8
}

/// A fresh version 4 UUID: sixteen bytes from the operating system's random
/// source with the version and variant bits set, or `None` when that source
/// fails.
pub(crate) fn new_uuid_v4() -> (bytes: Option<[u8; 16]>)
    ensures
        bytes matches Some(b) ==> is_version4(b@) && !is_nil(b@),
{
    let random = match crate::photokit_locator::random_bytes(16) {
        Some(r) => r,
        None => {
            return None;
        },
    };
    let version: u8 = (random[6] & 0x0f) | 0x40;
    let variant: u8 = (random[8] & 0x3f) | 0x80;
    let bytes: [u8; 16] = [
        random[0],
        random[1],
        random[2],
        random[3],
        random[4],
        random[5],
        version,
        random[7],
        variant,
        random[9],
        random[10],
        random[11],
        random[12],
        random[13],
        random[14],
        random[15],
    ];
    let r6 = random[6];
    let r8 = random[8];
    assert(version & 0xf0u8 == 0x40u8 && version != 0) by (bit_vector)
        requires
            version == (r6 & 0x0f) | 0x40,
    ;
    assert(variant & 0xc0u8 == 0x80u8) by (bit_vector)
        requires
            variant == (r8 & 0x3f) | 0x80,
    ;
    assert(bytes@[6] == version && bytes@[8] == variant);
    Some(bytes)
}

pub open spec fn is_nil(bytes: Seq<u8>) -> bool {
    forall|i: int| 0 <= i < bytes.len() ==> bytes[i] == 0u8
}

/// A UUID written canonically: it parses, is not nil, and is written exactly
/// as its hyphenated form.
pub open spec fn canonical_uuid(text: Seq<char>) -> bool {
    match uuid_parse(text) {
        Some(b) => !is_nil(b) && uuid_hyphenated(b) == text,
        None => false,
    }
}

fn all_zero(bytes: &[u8; 16]) -> (zero: bool)
    ensures
        zero == is_nil(bytes@),
{
    let mut i: usize = 0;
    while i < 16
        invariant
            i <= 16,
            bytes@.len() == 16,
            forall|j: int| 0 <= j < i ==> bytes@[j] == 0u8,
        decreases 16 - i,
    {
        if bytes[i] != 0 {
            return false;
        }
        i = i + 1;
    }
    true
}

/// The bytes of a canonically written UUID.
pub fn parse_canonical_uuid(value: &str) -> (parsed: Option<[u8; 16]>)
    ensures
        parsed is Some <==> canonical_uuid(value@),
        parsed matches Some(b) ==> uuid_parse(value@) == Some(b@),
{
    let bytes = match parse_uuid_bytes(value) {
        Some(b) => b,
        None => {
            return None;
        },
    };
    if all_zero(&bytes) {
        return None;
    }
    let text = hyphenated_text(bytes);
    if !crate::text::str_equal(text.as_str(), value) {
        return None;
    }
    Some(bytes)
}

} // verus!
