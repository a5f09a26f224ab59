use crate::image_structure::{
    jpeg_structure_valid, png_structure_valid, validate_jpeg, validate_png, validate_webp,
    webp_structure_valid,
};
use crate::receipt_image_codes::ReceiptImageFailureCodeV1;
use crate::text::bytes_equal;
use image::ImageEncoder;
use vstd::string::StringSliceAdditionalSpecFns;
use vstd::prelude::*;

verus! {

pub const MAX_RECEIPT_IMAGE_ENCODED_BYTES: usize = 8388608;

pub const MAX_RECEIPT_IMAGE_DECODED_BYTES: u64 = 67108864;

pub const MAX_RECEIPT_IMAGE_DERIVATIVE_BYTES: usize = 71303168;

pub const MAX_RECEIPT_IMAGE_AXIS: u32 = 4096;

pub const MIN_RECEIPT_IMAGE_AXIS: u32 = 32;

pub const MAX_RECEIPT_IMAGE_PIXELS: u64 = 16777216;

pub const MAX_RECEIPT_IMAGE_HEADERS: usize = 64;

pub const MAX_RECEIPT_IMAGE_HEADER_BYTES: usize = 16384;

pub const MAX_RECEIPT_IMAGE_REDIRECTS: usize = 3;

/// The HTTP redirect statuses that a download follows.
pub open spec fn is_redirect_status(status: u16) -> bool {
    status == 301 || status == 302 || status == 303 || status == 307 || status == 308
}

pub fn is_redirect(status: u16) -> (redirect: bool)
    ensures
        redirect == is_redirect_status(status),
{
    status == 301 || status == 302 || status == 303 || status == 307 || status == 308
}

/// The sum of the name and value lengths of the first `n` headers.
pub open spec fn header_bytes(headers: Seq<(usize, usize)>, n: int) -> int
    decreases n,
{
    if n <= 0 {
        0
    } else {
        header_bytes(headers, n - 1) + headers[n - 1].0 + headers[n - 1].1
    }
}

proof fn lemma_header_bytes_monotone(headers: Seq<(usize, usize)>, i: int, j: int)
    requires
        0 <= i <= j <= headers.len(),
    ensures
        header_bytes(headers, i) <= header_bytes(headers, j),
    decreases j - i,
{
    if i < j {
        lemma_header_bytes_monotone(headers, i, j - 1);
    }
}

/// Response headers are bounded: at most 64 of them, and at most 16 KiB of
/// names and values together. Each header is given by the byte lengths of its
/// name and its value.
pub fn ensure_header_bounds(headers: &[(usize, usize)]) -> (result: Result<(), ReceiptImageFailureCodeV1>)
    ensures
        result is Ok <==> (headers@.len() <= MAX_RECEIPT_IMAGE_HEADERS && header_bytes(
            headers@,
            headers@.len() as int,
        ) <= MAX_RECEIPT_IMAGE_HEADER_BYTES),
        result matches Err(e) ==> e == ReceiptImageFailureCodeV1::HeaderLimit,
{
    if headers.len() > MAX_RECEIPT_IMAGE_HEADERS {
        return Err(ReceiptImageFailureCodeV1::HeaderLimit);
    }
    let mut aggregate: usize = 0;
    let mut i: usize = 0;
    while i < headers.len()
        invariant
            i <= headers@.len(),
            aggregate == header_bytes(headers@, i as int),
            aggregate <= MAX_RECEIPT_IMAGE_HEADER_BYTES,
        decreases headers@.len() - i,
    {
        let (name_len, value_len) = headers[i];
        let total = match aggregate.checked_add(name_len) {
            Some(v) => match v.checked_add(value_len) {
                Some(w) => w,
                None => {
                    proof {
                        lemma_header_bytes_monotone(headers@, i + 1, headers@.len() as int);
                    }
                    return Err(ReceiptImageFailureCodeV1::HeaderLimit);
                },
            },
            None => {
                proof {
                    lemma_header_bytes_monotone(headers@, i + 1, headers@.len() as int);
                }
                return Err(ReceiptImageFailureCodeV1::HeaderLimit);
            },
        };
        if total > MAX_RECEIPT_IMAGE_HEADER_BYTES {
            proof {
                lemma_header_bytes_monotone(headers@, i + 1, headers@.len() as int);
            }
            return Err(ReceiptImageFailureCodeV1::HeaderLimit);
        }
        aggregate = total;
        i = i + 1;
    }
    Ok(())
}

/// A byte that `http` lets through `HeaderValue::to_str`: visible ASCII or tab.
pub open spec fn is_visible_ascii(b: u8) -> bool {
    (32 <= b && b < 127) || b == 9
}

pub open spec fn all_visible_ascii(bytes: Seq<u8>) -> bool {
    forall|i: int| 0 <= i < bytes.len() ==> is_visible_ascii(#[trigger] bytes[i])
}

fn check_visible_ascii(bytes: &[u8]) -> (visible: bool)
    ensures
        visible == all_visible_ascii(bytes@),
{
    let mut i: usize = 0;
    while i < bytes.len()
        invariant
            i <= bytes@.len(),
            forall|j: int| 0 <= j < i ==> is_visible_ascii(#[trigger] bytes@[j]),
        decreases bytes@.len() - i,
    {
        let b = bytes[i];
        if !((32 <= b && b < 127) || b == 9) {
            return false;
        }
        i = i + 1;
    }
    true
}

/// The one value of a header that may occur at most once, given all the
/// values the response has for it: none is `Ok(None)`; more than one, one
/// longer than `max_bytes`, or one with a byte that is not visible ASCII is
/// `HeaderLimit`.
pub fn single_bounded_header(values: &[Vec<u8>], max_bytes: usize) -> (result: Result<
    Option<&Vec<u8>>,
    ReceiptImageFailureCodeV1,
>)
    ensures
        (values@.len() == 0) == (result matches Ok(None)),
        (result matches Ok(Some(_))) == (values@.len() == 1 && values@[0]@.len() <= max_bytes
            && all_visible_ascii(values@[0]@)),
        result matches Ok(Some(v)) ==> v@ == values@[0]@,
        result matches Err(e) ==> e == ReceiptImageFailureCodeV1::HeaderLimit,
{
    if values.len() == 0 {
        return Ok(None);
    }
    let value = &values[0];
    if values.len() > 1 || value.len() > max_bytes {
        return Err(ReceiptImageFailureCodeV1::HeaderLimit);
    }
    if !check_visible_ascii(value.as_slice()) {
        return Err(ReceiptImageFailureCodeV1::HeaderLimit);
    }
    Ok(Some(value))
}

pub open spec fn is_ascii_digit(b: u8) -> bool {
    48 <= b <= 57
}

/// The number that a string of decimal digits spells.
pub open spec fn decimal_value(digits: Seq<u8>) -> int
    decreases digits.len(),
{
    if digits.len() == 0 {
        0
    } else {
        decimal_value(digits.drop_last()) * 10 + (digits.last() - 48)
    }
}

proof fn lemma_decimal_value_nonneg(digits: Seq<u8>)
    requires
        forall|i: int| 0 <= i < digits.len() ==> is_ascii_digit(#[trigger] digits[i]),
    ensures
        decimal_value(digits) >= 0,
    decreases digits.len(),
{
    if digits.len() > 0 {
        lemma_decimal_value_nonneg(digits.drop_last());
    }
}

proof fn lemma_decimal_value_grows(digits: Seq<u8>, i: int)
    requires
        0 <= i <= digits.len(),
        forall|k: int| 0 <= k < digits.len() ==> is_ascii_digit(#[trigger] digits[k]),
    ensures
        decimal_value(digits.subrange(0, i)) <= decimal_value(digits),
    decreases digits.len() - i,
{
    if i < digits.len() {
        lemma_decimal_value_grows(digits, i + 1);
        let next = digits.subrange(0, i + 1);
        assert(next.drop_last() =~= digits.subrange(0, i));
        lemma_decimal_value_nonneg(digits.subrange(0, i));
    } else {
        assert(digits.subrange(0, i) =~= digits);
    }
}

/// The declared `Content-Length`: absent is `None`; present, it must be a
/// single run of decimal digits that fits a `u64`.
#[verifier::loop_isolation(false)]
pub fn parse_content_length(values: &[Vec<u8>]) -> (result: Result<Option<u64>, ReceiptImageFailureCodeV1>)
    ensures
        values@.len() == 0 ==> result == Ok::<Option<u64>, ReceiptImageFailureCodeV1>(None),
        values@.len() > 0 ==> (result is Ok <==> ({
            let v = values@[0]@;
            &&& values@.len() == 1
            &&& v.len() <= 32
            &&& v.len() > 0
            &&& forall|i: int| 0 <= i < v.len() ==> is_ascii_digit(#[trigger] v[i])
            &&& decimal_value(v) <= u64::MAX
        })),
        result matches Ok(Some(n)) ==> n == decimal_value(values@[0]@),
        result matches Err(e) ==> e == ReceiptImageFailureCodeV1::ContentLengthRejected,
{
    let value = match single_bounded_header(values, 32) {
        Ok(Some(v)) => v,
        Ok(None) => {
            return Ok(None);
        },
        Err(_) => {
            proof {
                let v = values@[0]@;
                if values@.len() == 1 && v.len() <= 32 && !all_visible_ascii(v) {
                    let i = choose|i: int| 0 <= i < v.len() && !is_visible_ascii(#[trigger] v[i]);
                    assert(!is_ascii_digit(v[i]));
                }
            }
            return Err(ReceiptImageFailureCodeV1::ContentLengthRejected);
        },
    };
    if value.len() == 0 {
        return Err(ReceiptImageFailureCodeV1::ContentLengthRejected);
    }
    let mut i: usize = 0;
    while i < value.len()
        invariant
            i <= value@.len(),
            forall|j: int| 0 <= j < i ==> is_ascii_digit(#[trigger] value@[j]),
        decreases value@.len() - i,
    {
        if !(48 <= value[i] && value[i] <= 57) {
            return Err(ReceiptImageFailureCodeV1::ContentLengthRejected);
        }
        i = i + 1;
    }
    let mut number: u64 = 0;
    let mut k: usize = 0;
    while k < value.len()
        invariant
            k <= value@.len(),
            forall|j: int| 0 <= j < value@.len() ==> is_ascii_digit(#[trigger] value@[j]),
            number == decimal_value(value@.subrange(0, k as int)),
        decreases value@.len() - k,
    {
        let digit = (value[k] - 48) as u64;
        proof {
            let next = value@.subrange(0, k + 1);
            assert(next.drop_last() =~= value@.subrange(0, k as int));
            assert(next.last() == value@[k as int]);
        }
        let shifted = match number.checked_mul(10) {
            Some(v) => v,
            None => {
                proof {
                    lemma_decimal_value_grows(value@, k + 1);
                    let next = value@.subrange(0, k + 1);
                    assert(decimal_value(next) == decimal_value(next.drop_last()) * 10 + (
                    next.last() - 48));
                }
                return Err(ReceiptImageFailureCodeV1::ContentLengthRejected);
            },
        };
        number = match shifted.checked_add(digit) {
            Some(v) => v,
            None => {
                proof {
                    lemma_decimal_value_grows(value@, k + 1);
                    let next = value@.subrange(0, k + 1);
                    assert(decimal_value(next) == decimal_value(next.drop_last()) * 10 + (
                    next.last() - 48));
                }
                return Err(ReceiptImageFailureCodeV1::ContentLengthRejected);
            },
        };
        k = k + 1;
    }
    assert(value@.subrange(0, value@.len() as int) =~= value@);
    Ok(Some(number))
}

/// ASCII whitespace as `str::trim` sees it: space, and tab to carriage return.
pub open spec fn is_ascii_whitespace_byte(b: u8) -> bool {
    b == 32 || (9 <= b && b <= 13)
}

/// The bytes before the first `;`, or all of them.
pub open spec fn before_semicolon(bytes: Seq<u8>) -> Seq<u8>
    decreases bytes.len(),
{
    if bytes.len() == 0 {
        bytes
    } else if bytes[0] == 59u8 {
        Seq::empty()
    } else {
        seq![bytes[0]] + before_semicolon(bytes.drop_first())
    }
}

pub open spec fn trim_start(bytes: Seq<u8>) -> Seq<u8>
    decreases bytes.len(),
{
    if bytes.len() > 0 && is_ascii_whitespace_byte(bytes[0]) {
        trim_start(bytes.drop_first())
    } else {
        bytes
    }
}

pub open spec fn trim_end(bytes: Seq<u8>) -> Seq<u8>
    decreases bytes.len(),
{
    if bytes.len() > 0 && is_ascii_whitespace_byte(bytes.last()) {
        trim_end(bytes.drop_last())
    } else {
        bytes
    }
}

pub open spec fn ascii_lower(b: u8) -> u8 {
    if 65 <= b <= 90 {
        (b + 32) as u8
    } else {
        b
    }
}

pub open spec fn ascii_lowercase(bytes: Seq<u8>) -> Seq<u8> {
    bytes.map_values(|b: u8| ascii_lower(b))
}

/// The media type of a `Content-Type` value: its part before any parameter,
/// trimmed and lower-cased.
pub open spec fn media_type_token(bytes: Seq<u8>) -> Seq<u8> {
    ascii_lowercase(trim_end(trim_start(before_semicolon(bytes))))
}

/// The media types that a receipt image may have.
pub open spec fn accepted_media_type(token: Seq<u8>) -> bool {
    token == "image/jpeg".spec_bytes() || token == "image/png".spec_bytes() || token
        == "image/webp".spec_bytes()
}

fn media_type_token_of(bytes: &[u8]) -> (token: Vec<u8>)
    ensures
        token@ == media_type_token(bytes@),
{
    // before the first ';'
    let mut end: usize = 0;
    while end < bytes.len() && bytes[end] != 59
        invariant
            end <= bytes@.len(),
            forall|j: int| 0 <= j < end ==> bytes@[j] != 59u8,
        decreases bytes@.len() - end,
    {
        end = end + 1;
    }
    proof {
        lemma_before_semicolon(bytes@, end as int);
    }
    let mut start: usize = 0;
    while start < end && (bytes[start] == 32 || (9 <= bytes[start] && bytes[start] <= 13))
        invariant
            start <= end <= bytes@.len(),
            trim_start(bytes@.subrange(0, end as int)) == trim_start(
                bytes@.subrange(start as int, end as int),
            ),
        decreases end - start,
    {
        assert(bytes@.subrange(start as int, end as int).drop_first() =~= bytes@.subrange(
            start + 1,
            end as int,
        ));
        start = start + 1;
    }
    let mut stop: usize = end;
    while stop > start && (bytes[stop - 1] == 32 || (9 <= bytes[stop - 1] && bytes[stop - 1]
        <= 13))
        invariant
            start <= stop <= end <= bytes@.len(),
            trim_end(bytes@.subrange(start as int, end as int)) == trim_end(
                bytes@.subrange(start as int, stop as int),
            ),
        decreases stop - start,
    {
        assert(bytes@.subrange(start as int, stop as int).drop_last() =~= bytes@.subrange(
            start as int,
            stop - 1,
        ));
        stop = stop - 1;
    }
    proof {
        let s = bytes@.subrange(start as int, end as int);
        if start < end && !is_ascii_whitespace_byte(bytes@[start as int]) {
            assert(trim_start(s) == s);
        }
        if start == end {
            assert(s =~= Seq::<u8>::empty());
        }
    }
    let mut token: Vec<u8> = Vec::new();
    let mut i = start;
    while i < stop
        invariant
            start <= i <= stop <= bytes@.len(),
            token@ =~= ascii_lowercase(bytes@.subrange(start as int, i as int)),
        decreases stop - i,
    {
        let b = bytes[i];
        let lower = if 65 <= b && b <= 90 {
            b + 32
        } else {
            b
        };
        token.push(lower);
        i = i + 1;
    }
    proof {
        let t = trim_end(trim_start(bytes@.subrange(0, end as int)));
        assert(t == bytes@.subrange(start as int, stop as int)) by {
            let s = bytes@.subrange(start as int, end as int);
            if start < end && !is_ascii_whitespace_byte(bytes@[start as int]) {
                assert(trim_start(s) == s);
            } else if start == end {
                assert(trim_start(s) == s);
            }
            let u = bytes@.subrange(start as int, stop as int);
            if stop > start {
                assert(u.last() == bytes@[stop - 1]);
                assert(trim_end(u) == u);
            } else {
                assert(u =~= Seq::<u8>::empty());
            }
        }
    }
    token
}

proof fn lemma_before_semicolon(bytes: Seq<u8>, end: int)
    requires
        0 <= end <= bytes.len(),
        forall|j: int| 0 <= j < end ==> bytes[j] != 59u8,
        end == bytes.len() || bytes[end] == 59u8,
    ensures
        before_semicolon(bytes) == bytes.subrange(0, end),
    decreases bytes.len(),
{
    if bytes.len() == 0 {
        assert(bytes.subrange(0, end) =~= bytes);
    } else if end == 0 {
        assert(bytes.subrange(0, end) =~= Seq::<u8>::empty());
    } else {
        let rest = bytes.drop_first();
        assert forall|j: int| 0 <= j < end - 1 implies rest[j] != 59u8 by {
            assert(rest[j] == bytes[j + 1]);
        }
        lemma_before_semicolon(rest, end - 1);
        assert(seq![bytes[0]] + rest.subrange(0, end - 1) =~= bytes.subrange(0, end));
    }
}

/// The media type of the response: its one `Content-Type`, reduced to the type
/// and compared to the three that a receipt image may have.
pub fn parse_media_type(values: &[Vec<u8>]) -> (result: Result<&'static str, ReceiptImageFailureCodeV1>)
    ensures
        values@.len() > 1 || (values@.len() == 1 && (values@[0]@.len() > 128 || !all_visible_ascii(
            values@[0]@,
        ))) ==> result == Err::<&'static str, ReceiptImageFailureCodeV1>(
            ReceiptImageFailureCodeV1::HeaderLimit,
        ),
        values@.len() == 0 ==> result == Err::<&'static str, ReceiptImageFailureCodeV1>(
            ReceiptImageFailureCodeV1::MediaTypeRejected,
        ),
        values@.len() == 1 && values@[0]@.len() <= 128 && all_visible_ascii(values@[0]@) ==> (
        match result {
            Ok(media_type) => accepted_media_type(media_type_token(values@[0]@))
                && media_type.spec_bytes() == media_type_token(values@[0]@),
            Err(e) => !accepted_media_type(media_type_token(values@[0]@)) && e
                == ReceiptImageFailureCodeV1::MediaTypeRejected,
        }),
{
    let value = match single_bounded_header(values, 128) {
        Ok(Some(v)) => v,
        Ok(None) => {
            return Err(ReceiptImageFailureCodeV1::MediaTypeRejected);
        },
        Err(e) => {
            return Err(e);
        },
    };
    let token = media_type_token_of(value.as_slice());
    let jpeg = "image/jpeg";
    let png = "image/png";
    let webp = "image/webp";
    if bytes_equal(token.as_slice(), jpeg.as_bytes()) {
        Ok(jpeg)
    } else if bytes_equal(token.as_slice(), png.as_bytes()) {
        Ok(png)
    } else if bytes_equal(token.as_slice(), webp.as_bytes()) {
        Ok(webp)
    } else {
        Err(ReceiptImageFailureCodeV1::MediaTypeRejected)
    }
}

/// The encodings that a receipt image may arrive in.
#[derive(Clone, Copy, Debug, PartialEq, Eq, Structural)]
pub enum ReceiptImageFormat {
    Jpeg,
    Png,
    WebP,
}

/// The format that the first bytes announce.
pub open spec fn magic_format(bytes: Seq<u8>) -> Option<ReceiptImageFormat> {
    if bytes.len() >= 2 && bytes[0] == 0xffu8 && bytes[1] == 0xd8u8 {
        Some(ReceiptImageFormat::Jpeg)
    } else if bytes.len() >= 8 && bytes.subrange(0, 8) == crate::image_structure::png_signature() {
        Some(ReceiptImageFormat::Png)
    } else if bytes.len() >= 12 && bytes.subrange(0, 4) == crate::image_structure::kind_riff()
        && bytes.subrange(8, 12) == crate::image_structure::kind_webp() {
        Some(ReceiptImageFormat::WebP)
    } else {
        None
    }
}

/// The format whose media type is `media_type`.
pub open spec fn format_of_media_type(media_type: Seq<u8>) -> Option<ReceiptImageFormat> {
    if media_type == "image/jpeg".spec_bytes() {
        Some(ReceiptImageFormat::Jpeg)
    } else if media_type == "image/png".spec_bytes() {
        Some(ReceiptImageFormat::Png)
    } else if media_type == "image/webp".spec_bytes() {
        Some(ReceiptImageFormat::WebP)
    } else {
        None
    }
}

fn starts_with_signature(bytes: &[u8], signature: &[u8]) -> (starts: bool)
    ensures
        starts == (bytes@.len() >= signature@.len() && bytes@.subrange(0, signature@.len() as int)
            == signature@),
{
    if bytes.len() < signature.len() {
        return false;
    }
    let mut i: usize = 0;
    while i < signature.len()
        invariant
            i <= signature@.len() <= bytes@.len(),
            forall|j: int| 0 <= j < i ==> bytes@[j] == signature@[j],
        decreases signature@.len() - i,
    {
        if bytes[i] != signature[i] {
            assert(bytes@.subrange(0, signature@.len() as int)[i as int] != signature@[i as int]);
            return false;
        }
        i = i + 1;
    }
    assert(bytes@.subrange(0, signature@.len() as int) =~= signature@);
    true
}

/// Identifies the format by its magic bytes and requires it to be the one
/// that the media type names.
pub fn detect_and_match_format(bytes: &[u8], media_type: &str) -> (result: Result<ReceiptImageFormat, ReceiptImageFailureCodeV1>)
    ensures
        match result {
            Ok(format) => magic_format(bytes@) == Some(format) && format_of_media_type(
                media_type.spec_bytes(),
            ) == Some(format),
            Err(e) => e == ReceiptImageFailureCodeV1::MagicMismatch && (magic_format(bytes@) is None
                || magic_format(bytes@) != format_of_media_type(media_type.spec_bytes())),
        },
{
    let png_signature: [u8; 8] = [0x89, 0x50, 0x4e, 0x47, 0x0d, 0x0a, 0x1a, 0x0a];
    let riff: [u8; 4] = [0x52, 0x49, 0x46, 0x46];
    let webp: [u8; 4] = [0x57, 0x45, 0x42, 0x50];
    proof {
        assert(png_signature@ =~= crate::image_structure::png_signature());
        assert(riff@ =~= crate::image_structure::kind_riff());
        assert(webp@ =~= crate::image_structure::kind_webp());
    }
    let format = if bytes.len() >= 2 && bytes[0] == 0xff && bytes[1] == 0xd8 {
        ReceiptImageFormat::Jpeg
    } else if starts_with_signature(bytes, &png_signature) {
        ReceiptImageFormat::Png
    } else if bytes.len() >= 12 && starts_with_signature(bytes, &riff) && starts_with_signature(
        &bytes[8..12],
        &webp,
    ) {
        assert(bytes@.subrange(8, 12).subrange(0, 4) =~= bytes@.subrange(8, 12));
        ReceiptImageFormat::WebP
    } else {
        proof {
            if bytes@.len() >= 12 && bytes@.subrange(0, 4) == crate::image_structure::kind_riff() {
                assert(bytes@.subrange(8, 12).subrange(0, 4) =~= bytes@.subrange(8, 12));
            }
        }
        return Err(ReceiptImageFailureCodeV1::MagicMismatch);
    };
    let media = media_type.as_bytes();
    let wanted = if bytes_equal(media, "image/jpeg".as_bytes()) {
        Some(ReceiptImageFormat::Jpeg)
    } else if bytes_equal(media, "image/png".as_bytes()) {
        Some(ReceiptImageFormat::Png)
    } else if bytes_equal(media, "image/webp".as_bytes()) {
        Some(ReceiptImageFormat::WebP)
    } else {
        None
    };
    match wanted {
        Some(w) => {
            if w == format {
                Ok(format)
            } else {
                Err(ReceiptImageFailureCodeV1::MagicMismatch)
            }
        },
        None => Err(ReceiptImageFailureCodeV1::MagicMismatch),
    }
}

/// The structure check of the detected format.
pub open spec fn image_structure_valid(bytes: Seq<u8>, format: ReceiptImageFormat) -> bool {
    match format {
        ReceiptImageFormat::Jpeg => jpeg_structure_valid(bytes),
        ReceiptImageFormat::Png => png_structure_valid(bytes),
        ReceiptImageFormat::WebP => webp_structure_valid(bytes),
    }
}

/// Checks the structure of the bytes in the detected format.
pub fn validate_image_structure(bytes: &[u8], format: ReceiptImageFormat) -> (result: Result<(), ReceiptImageFailureCodeV1>)
    ensures
        result is Ok <==> image_structure_valid(bytes@, format),
        result matches Err(e) ==> e == ReceiptImageFailureCodeV1::StructureRejected,
{
    match format {
        ReceiptImageFormat::Jpeg => validate_jpeg(bytes),
        ReceiptImageFormat::Png => validate_png(bytes),
        ReceiptImageFormat::WebP => validate_webp(bytes),
    }
}

/// Decoded dimensions that a receipt image may have: each side between 32 and
/// 4096 pixels, at most 16,777,216 pixels, and at most 64 MiB as RGBA.
pub open spec fn decoded_dimensions_ok(width: u32, height: u32) -> bool {
    &&& MIN_RECEIPT_IMAGE_AXIS <= width <= MAX_RECEIPT_IMAGE_AXIS
    &&& MIN_RECEIPT_IMAGE_AXIS <= height <= MAX_RECEIPT_IMAGE_AXIS
    &&& width * height <= MAX_RECEIPT_IMAGE_PIXELS
    &&& width * height * 4 <= MAX_RECEIPT_IMAGE_DECODED_BYTES
}

/// Checks the dimensions of a decoded receipt image.
pub fn check_decoded_dimensions(width: u32, height: u32) -> (result: Result<(), ReceiptImageFailureCodeV1>)
    ensures
        result is Ok <==> decoded_dimensions_ok(width, height),
        result matches Err(e) ==> e == ReceiptImageFailureCodeV1::DimensionsRejected,
{
    let w = width as u64;
    let h = height as u64;
    assert(w * h <= 0xffff_ffffu64 * 0xffff_ffffu64) by (nonlinear_arith)
        requires
            w <= 0xffff_ffffu64,
            h <= 0xffff_ffffu64,
    ;
    let pixels = w * h;
    let decoded = match pixels.checked_mul(4) {
        Some(v) => v,
        None => {
            return Err(ReceiptImageFailureCodeV1::DimensionsRejected);
        },
    };
    if width < MIN_RECEIPT_IMAGE_AXIS || width > MAX_RECEIPT_IMAGE_AXIS || height
        < MIN_RECEIPT_IMAGE_AXIS || height > MAX_RECEIPT_IMAGE_AXIS || pixels
        > MAX_RECEIPT_IMAGE_PIXELS || decoded > MAX_RECEIPT_IMAGE_DECODED_BYTES {
        return Err(ReceiptImageFailureCodeV1::DimensionsRejected);
    }
    Ok(())
}

/// A decoded image as RGBA8 pixels, row by row.
pub struct DecodedImage {
    pub width: u32,
    pub height: u32,
    pub rgba: Vec<u8>,
}

impl DecodedImage {
    /// Four bytes for every pixel.
    pub open spec fn well_formed(&self) -> bool {
        self.rgba@.len() == self.width * self.height * 4
    }
}

/// What `image`'s PNG encoder writes for RGBA8 pixels with best compression
/// and the Paeth filter.
pub uninterp spec fn png_encode_best_paeth(rgba: Seq<u8>, width: u32, height: u32) -> Option<
    Seq<u8>,
>;

/// What `image` decodes a PNG `source` into, with sides of at most
/// `max_axis` pixels and at most `max_alloc` bytes allocated, as width,
/// height and RGBA8 bytes; `None` when it does not decode.
pub uninterp spec fn png_decode_rgba8(source: Seq<u8>, max_axis: u32, max_alloc: u64) -> Option<
    (u32, u32, Seq<u8>),
>;

/// `image::ImageReader::with_format(..).decode()` under `image::Limits` of
/// `max_axis` pixels a side and `max_alloc` bytes, then
/// `DynamicImage::into_rgba8`: `None` when decoding fails; otherwise the
/// dimensions and pixels, four bytes per pixel. For a PNG source the result
/// is named, since PNG decoding is exact integer arithmetic; for JPEG and
/// WebP which pixels come out is not stated: the JPEG decoder picks its
/// arithmetic by the processor.
#[verifier::external_body]
fn decode_rgba8(source: Vec<u8>, format: ReceiptImageFormat, max_axis: u32, max_alloc: u64) -> (decoded: Option<DecodedImage>)
    ensures
        decoded matches Some(d) ==> d.well_formed(),
        format == ReceiptImageFormat::Png ==> match decoded {
            Some(d) => png_decode_rgba8(source@, max_axis, max_alloc) == Some((d.width, d.height, d.rgba@)),
            None => png_decode_rgba8(source@, max_axis, max_alloc) is None,
        },
{
    let format = match format {
        ReceiptImageFormat::Jpeg => image::ImageFormat::Jpeg,
        ReceiptImageFormat::Png => image::ImageFormat::Png,
        ReceiptImageFormat::WebP => image::ImageFormat::WebP,
    };
    let mut reader = image::ImageReader::with_format(std::io::Cursor::new(source), format);
    let mut limits = image::Limits::default();
    (limits.max_image_width, limits.max_image_height, limits.max_alloc) = (Some(max_axis), Some(max_axis), Some(max_alloc));
    reader.limits(limits);
    let image = reader.decode().ok()?;
    let (width, height) = image::GenericImageView::dimensions(&image);
    Some(DecodedImage { width, height, rgba: image.into_rgba8().into_raw() })
}

/// `image::codecs::png::PngEncoder::new_with_quality(.., Best, Paeth)
/// .write_image(.., Rgba8)`: the PNG bytes, or `None` when encoding fails.
/// The encoder panics unless the pixels are exactly four bytes per pixel.
#[verifier::external_body]
fn encode_png_best_paeth(rgba: &[u8], width: u32, height: u32) -> (png: Option<Vec<u8>>)
    requires
        rgba@.len() == width * height * 4,
    ensures
        match png {
            Some(p) => png_encode_best_paeth(rgba@, width, height) == Some(p@),
            None => png_encode_best_paeth(rgba@, width, height) is None,
        },
{
    let mut output = Vec::new();
    image::codecs::png::PngEncoder::new_with_quality(
        &mut output,
        image::codecs::png::CompressionType::Best,
        image::codecs::png::FilterType::Paeth,
    ).write_image(rgba, width, height, image::ExtendedColorType::Rgba8).ok()?;
    Some(output)
}

/// What the display image derived from decoded pixels is: the dimensions
/// are refused, the derivative cannot be written within 68 MiB, or the PNG
/// derivative with its width and height.
pub open spec fn derive_display_png(width: u32, height: u32, rgba: Seq<u8>) -> Result<
    (Seq<u8>, u32, u32),
    ReceiptImageFailureCodeV1,
> {
    if !decoded_dimensions_ok(width, height) {
        Err(ReceiptImageFailureCodeV1::DimensionsRejected)
    } else {
        match png_encode_best_paeth(rgba, width, height) {
            Some(png) => if png.len() <= MAX_RECEIPT_IMAGE_DERIVATIVE_BYTES {
                Ok((png, width, height))
            } else {
                Err(ReceiptImageFailureCodeV1::DerivativeLimit)
            },
            None => Err(ReceiptImageFailureCodeV1::DerivativeLimit),
        }
    }
}

/// `result` is the executable form of the derivation `expected`.
pub open spec fn derived_as(
    result: Result<(Vec<u8>, u32, u32), ReceiptImageFailureCodeV1>,
    expected: Result<(Seq<u8>, u32, u32), ReceiptImageFailureCodeV1>,
) -> bool {
    match (result, expected) {
        (Ok((png, w, h)), Ok((spec_png, sw, sh))) => png@ == spec_png && w == sw && h == sh,
        (Err(e), Err(spec_e)) => e == spec_e,
        _ => false,
    }
}

/// Two derivations of the same expected result agree: two calls of
/// `decode_and_derive_blocking` on the same PNG source give the same bytes,
/// width and height, or the same failure.
pub proof fn lemma_derivations_agree(
    first: Result<(Vec<u8>, u32, u32), ReceiptImageFailureCodeV1>,
    second: Result<(Vec<u8>, u32, u32), ReceiptImageFailureCodeV1>,
    expected: Result<(Seq<u8>, u32, u32), ReceiptImageFailureCodeV1>,
)
    requires
        derived_as(first, expected),
        derived_as(second, expected),
    ensures
        match (first, second) {
            (Ok(a), Ok(b)) => a.0@ == b.0@ && a.1 == b.1 && a.2 == b.2,
            (Err(x), Err(y)) => x == y,
            _ => false,
        },
{
}

/// Checks the dimensions of a decoded image and writes the metadata-free PNG
/// derivative that the app displays.
pub fn derive_display_image(decoded: DecodedImage) -> (result: Result<
    (Vec<u8>, u32, u32),
    ReceiptImageFailureCodeV1,
>)
    requires
        decoded.well_formed(),
    ensures
        derived_as(result, derive_display_png(decoded.width, decoded.height, decoded.rgba@)),
{
    if check_decoded_dimensions(decoded.width, decoded.height).is_err() {
        return Err(ReceiptImageFailureCodeV1::DimensionsRejected);
    }
    match encode_png_best_paeth(decoded.rgba.as_slice(), decoded.width, decoded.height) {
        Some(png) => {
            if png.len() > MAX_RECEIPT_IMAGE_DERIVATIVE_BYTES {
                Err(ReceiptImageFailureCodeV1::DerivativeLimit)
            } else {
                Ok((png, decoded.width, decoded.height))
            }
        },
        None => Err(ReceiptImageFailureCodeV1::DerivativeLimit),
    }
}

/// Decodes the source under the limits of 4096 pixels a side and 64 MiB,
/// then derives the display image: `DecodeFailed` when the source does not
/// decode, else the derivation of whatever pixels it decoded to. A PNG
/// source gives the derivation of its decoded pixels, so the same source
/// always gives the same derivative, and the derivative is made from the
/// pixels alone, whatever other chunks the source holds.
pub fn decode_and_derive_blocking(source: Vec<u8>, format: ReceiptImageFormat) -> (result: Result<
    (Vec<u8>, u32, u32),
    ReceiptImageFailureCodeV1,
>)
    ensures
        format == ReceiptImageFormat::Png ==> match png_decode_rgba8(
            source@,
            MAX_RECEIPT_IMAGE_AXIS,
            MAX_RECEIPT_IMAGE_DECODED_BYTES,
        ) {
            None => result == Err::<(Vec<u8>, u32, u32), ReceiptImageFailureCodeV1>(
                ReceiptImageFailureCodeV1::DecodeFailed,
            ),
            Some((width, height, rgba)) => derived_as(result, derive_display_png(width, height, rgba)),
        },
        result == Err::<(Vec<u8>, u32, u32), ReceiptImageFailureCodeV1>(
            ReceiptImageFailureCodeV1::DecodeFailed,
        ) || exists|width: u32, height: u32, rgba: Seq<u8>|
            rgba.len() == width * height * 4 && #[trigger] derived_as(
                result,
                derive_display_png(width, height, rgba),
            ),
{
    let decoded = match decode_rgba8(source, format, MAX_RECEIPT_IMAGE_AXIS, MAX_RECEIPT_IMAGE_DECODED_BYTES) {
        Some(d) => d,
        None => {
            return Err(ReceiptImageFailureCodeV1::DecodeFailed);
        },
    };
    let ghost (width, height, rgba) = (decoded.width, decoded.height, decoded.rgba@);
    let result = derive_display_image(decoded);
    assert(derived_as(result, derive_display_png(width, height, rgba)));
    result
}

/// A declared `Content-Length` above 8 MiB is refused before any byte is read.
pub fn check_declared_length(declared: Option<u64>) -> (result: Result<(), ReceiptImageFailureCodeV1>)
    ensures
        result is Ok <==> !(declared matches Some(n) && n > MAX_RECEIPT_IMAGE_ENCODED_BYTES),
        result matches Err(e) ==> e == ReceiptImageFailureCodeV1::BodyLimit,
{
    match declared {
        Some(n) => if n > MAX_RECEIPT_IMAGE_ENCODED_BYTES as u64 {
            Err(ReceiptImageFailureCodeV1::BodyLimit)
        } else {
            Ok(())
        },
        None => Ok(()),
    }
}

/// One more chunk of the body is accepted while the body stays within 8 MiB.
pub fn accept_chunk(received: usize, chunk_len: usize) -> (result: Result<(), ReceiptImageFailureCodeV1>)
    ensures
        result is Ok <==> received + chunk_len <= MAX_RECEIPT_IMAGE_ENCODED_BYTES,
        result matches Err(e) ==> e == ReceiptImageFailureCodeV1::BodyLimit,
{
    if received > MAX_RECEIPT_IMAGE_ENCODED_BYTES || chunk_len > MAX_RECEIPT_IMAGE_ENCODED_BYTES - received {
        Err(ReceiptImageFailureCodeV1::BodyLimit)
    } else {
        Ok(())
    }
}

/// A body whose length differs from the declared one is refused.
pub fn check_received_length(declared: Option<u64>, received: usize) -> (result: Result<(), ReceiptImageFailureCodeV1>)
    ensures
        result is Ok <==> !(declared matches Some(n) && n != received),
        result matches Err(e) ==> e == ReceiptImageFailureCodeV1::ContentLengthRejected,
{
    match declared {
        Some(n) => if n != received as u64 {
            Err(ReceiptImageFailureCodeV1::ContentLengthRejected)
        } else {
            Ok(())
        },
        None => Ok(()),
    }
}

/// The ordinal of the next hop, given how many hops there were; past 255 is
/// `RedirectLimit`.
pub fn hop_ordinal(hops: usize) -> (ordinal: Result<u8, ReceiptImageFailureCodeV1>)
    ensures
        match ordinal {
            Ok(o) => o == hops,
            Err(e) => hops > 255 && e == ReceiptImageFailureCodeV1::RedirectLimit,
        },
{
    if hops > 255 {
        Err(ReceiptImageFailureCodeV1::RedirectLimit)
    } else {
        Ok(hops as u8)
    }
}

/// The revision of the network policy that a download follows.
pub const RECEIPT_IMAGE_POLICY_REVISION: &'static str = "receipt-image-network-policy-v1";

/// The revision of the decoder that reads the source image.
pub const RECEIPT_IMAGE_DECODER_REVISION: &'static str = "image-0.25.10-v1";

/// The revision of the derivative that the app displays.
pub const RECEIPT_IMAGE_DERIVATIVE_REVISION: &'static str = "png-rgba8-best-paeth-v1";

/// Only `200 OK` delivers the image; any other status that is not a
/// redirect is refused.
pub fn check_ok_status(status: u16) -> (result: Result<(), ReceiptImageFailureCodeV1>)
    ensures
        result is Ok <==> status == 200,
        result matches Err(e) ==> e == ReceiptImageFailureCodeV1::HttpStatusRejected,
{
    if status == 200 {
        Ok(())
    } else {
        Err(ReceiptImageFailureCodeV1::HttpStatusRejected)
    }
}

/// The registered media type of each format.
pub open spec fn media_type_of_format(format: ReceiptImageFormat) -> Seq<u8> {
    match format {
        ReceiptImageFormat::Jpeg => "image/jpeg".spec_bytes(),
        ReceiptImageFormat::Png => "image/png".spec_bytes(),
        ReceiptImageFormat::WebP => "image/webp".spec_bytes(),
    }
}

/// The media types accepted are exactly those of the three formats: every
/// format's media type is accepted and names that format, and an accepted
/// media type names a format.
pub proof fn lemma_accepted_media_types_are_the_formats(token: Seq<u8>, format: ReceiptImageFormat)
    ensures
        accepted_media_type(media_type_of_format(format)),
        format_of_media_type(media_type_of_format(format)) == Some(format),
        accepted_media_type(token) <==> format_of_media_type(token) is Some,
{
    reveal_strlit("image/jpeg");
    reveal_strlit("image/png");
    reveal_strlit("image/webp");
    vstd::string::is_ascii_spec_bytes("image/jpeg");
    vstd::string::is_ascii_spec_bytes("image/png");
    vstd::string::is_ascii_spec_bytes("image/webp");
    assert(vstd::string::is_ascii("image/jpeg"));
    assert(vstd::string::is_ascii("image/png"));
    assert(vstd::string::is_ascii("image/webp"));
    assert("image/jpeg".spec_bytes().len() == 10);
    assert("image/png".spec_bytes().len() == 9);
    assert("image/webp".spec_bytes().len() == 10);
    assert("image/jpeg".spec_bytes()[6] != "image/webp".spec_bytes()[6]);
}

} // verus!
