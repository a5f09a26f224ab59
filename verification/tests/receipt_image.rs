use image::ImageEncoder;
use wardrobe_platform::address_policy::{IpAddress, SealedProductionAddressPolicy, SocketAddress};
use wardrobe_platform::image_structure::{
    png_crc32, read_be_u16, read_be_u32, read_le_u32, validate_jpeg, validate_png, validate_webp,
};
use wardrobe_platform::receipt_image_codes::ReceiptImageFailureCodeV1;
use wardrobe_platform::receipt_response::{
    check_decoded_dimensions, decode_and_derive_blocking, detect_and_match_format,
    ensure_header_bounds, is_redirect, parse_content_length, parse_media_type,
    single_bounded_header, validate_image_structure, ReceiptImageFormat,
};

fn v4(octets: [u8; 4]) -> IpAddress {
    IpAddress::V4(u32::from_be_bytes(octets))
}

fn v6(segments: [u16; 8]) -> IpAddress {
    let mut value = 0_u128;
    for segment in segments {
        value = (value << 16) | u128::from(segment);
    }
    IpAddress::V6(value)
}

fn png_with_chunk(kind: &[u8; 4], payload: &[u8]) -> Vec<u8> {
    let pixels = vec![0x7f_u8; 32 * 32 * 4];
    let mut png = Vec::new();
    image::codecs::png::PngEncoder::new_with_quality(
        &mut png,
        image::codecs::png::CompressionType::Best,
        image::codecs::png::FilterType::Paeth,
    )
    .write_image(&pixels, 32, 32, image::ExtendedColorType::Rgba8)
    .unwrap();
    let insert_at = 8 + 4 + 4 + 13 + 4;
    let mut chunk = Vec::new();
    chunk.extend_from_slice(&(payload.len() as u32).to_be_bytes());
    chunk.extend_from_slice(kind);
    chunk.extend_from_slice(payload);
    let mut crc_input = kind.to_vec();
    crc_input.extend_from_slice(payload);
    chunk.extend_from_slice(&png_crc32(&crc_input).to_be_bytes());
    png.splice(insert_at..insert_at, chunk);
    png
}

fn png_chunk_kinds(bytes: &[u8]) -> Vec<[u8; 4]> {
    let mut offset = 8_usize;
    let mut kinds = Vec::new();
    while offset + 12 <= bytes.len() {
        let length = u32::from_be_bytes(bytes[offset..offset + 4].try_into().unwrap()) as usize;
        kinds.push(bytes[offset + 4..offset + 8].try_into().unwrap());
        offset += 12 + length;
    }
    kinds
}

#[test]
fn production_policy_rejects_special_ranges_and_allows_global_unicast() {
    for address in [
        v4([0, 0, 0, 0]),
        v4([10, 0, 0, 1]),
        v4([100, 100, 100, 200]),
        v4([127, 0, 0, 1]),
        v4([168, 63, 129, 16]),
        v4([169, 254, 169, 254]),
        v4([192, 0, 2, 1]),
        v4([198, 51, 100, 1]),
        v4([203, 0, 113, 1]),
        v4([224, 0, 0, 1]),
        v6([0, 0, 0, 0, 0, 0, 0, 0]),
        v6([0, 0, 0, 0, 0, 0, 0, 1]),
        v6([0, 0, 0, 0, 0, 0xffff, 0x0808, 0x0808]),
        v6([0x64, 0xff9b, 0, 0, 0, 0, 0x808, 0x808]),
        v6([0x2001, 0xdb8, 0, 0, 0, 0, 0, 1]),
        v6([0x2002, 0x0808, 0x0808, 0, 0, 0, 0, 1]),
        v6([0xfd00, 0xec2, 0, 0, 0, 0, 0, 0x254]),
        v6([0xfe80, 0, 0, 0, 0, 0, 0, 1]),
        v6([0xff02, 0, 0, 0, 0, 0, 0, 1]),
    ] {
        assert!(!SealedProductionAddressPolicy::permits(address));
    }
    for address in [
        v4([8, 8, 8, 8]),
        v4([1, 1, 1, 1]),
        v6([0x2606, 0x4700, 0x4700, 0, 0, 0, 0, 0x1111]),
    ] {
        assert!(SealedProductionAddressPolicy::permits(address));
    }
}

#[test]
fn structural_validators_reject_trailing_and_animated_payloads() {
    assert_eq!(
        validate_jpeg(&[0xff, 0xd8, 0xff, 0xd9, 0]),
        Err(ReceiptImageFailureCodeV1::StructureRejected)
    );

    let mut animated_webp = b"RIFF\0\0\0\0WEBPANIM\0\0\0\0".to_vec();
    let size = (animated_webp.len() - 8) as u32;
    animated_webp[4..8].copy_from_slice(&size.to_le_bytes());
    assert_eq!(
        validate_webp(&animated_webp),
        Err(ReceiptImageFailureCodeV1::StructureRejected)
    );
}

#[test]
fn valid_png_derivative_is_deterministic_and_metadata_free() {
    let source = png_with_chunk(b"tEXt", b"comment\0private");
    validate_png(&source).unwrap();
    let first = decode_and_derive_blocking(source.clone(), ReceiptImageFormat::Png).unwrap();
    let second = decode_and_derive_blocking(source, ReceiptImageFormat::Png).unwrap();
    assert_eq!(first, second);
    assert_eq!((first.1, first.2), (32, 32));
    let kinds = png_chunk_kinds(&first.0);
    assert_eq!(kinds.first(), Some(b"IHDR"));
    assert_eq!(kinds.last(), Some(b"IEND"));
    assert!(kinds[1..kinds.len() - 1].iter().all(|kind| kind == b"IDAT"));
}

#[test]
fn png_validator_rejects_apng_control_chunks() {
    let source = png_with_chunk(b"acTL", &[0, 0, 0, 1, 0, 0, 0, 0]);
    assert_eq!(
        validate_png(&source),
        Err(ReceiptImageFailureCodeV1::StructureRejected)
    );
}

#[test]
fn address_policy_validates_whole_dns_answers() {
    let policy = SealedProductionAddressPolicy::new();
    let public = SocketAddress { ip: v4([8, 8, 8, 8]), port: 443 };
    let private = SocketAddress { ip: v4([10, 0, 0, 1]), port: 443 };
    let other_port = SocketAddress { ip: v4([8, 8, 8, 8]), port: 80 };
    assert_eq!(policy.validate(&[public]), Ok(()));
    assert_eq!(policy.validate(&[]), Err(ReceiptImageFailureCodeV1::AddressRejected));
    assert_eq!(
        policy.validate(&[public, private]),
        Err(ReceiptImageFailureCodeV1::AddressRejected)
    );
    assert_eq!(policy.validate(&[other_port]), Err(ReceiptImageFailureCodeV1::AddressRejected));
    let many = vec![public; 17];
    assert_eq!(policy.validate(&many), Err(ReceiptImageFailureCodeV1::AddressRejected));
    assert_eq!(policy.validate(&many[..16]), Ok(()));
}

#[test]
fn crc_matches_the_png_reference_value() {
    assert_eq!(png_crc32(b"IEND"), 0xAE42_6082);
    assert_eq!(png_crc32(b""), 0);
    assert_eq!(png_crc32(b"123456789"), 0xCBF4_3926);
}

#[test]
fn byte_readers_read_in_bounds_only() {
    let bytes = [0x12, 0x34, 0x56, 0x78];
    assert_eq!(read_be_u16(&bytes, 1), Ok(0x3456));
    assert_eq!(read_be_u32(&bytes, 0), Ok(0x1234_5678));
    assert_eq!(read_le_u32(&bytes, 0), Ok(0x7856_3412));
    assert_eq!(read_be_u16(&bytes, 3), Err(ReceiptImageFailureCodeV1::StructureRejected));
    assert_eq!(read_be_u32(&bytes, 1), Err(ReceiptImageFailureCodeV1::StructureRejected));
}

#[test]
fn redirect_statuses_are_exactly_the_five() {
    for status in [301, 302, 303, 307, 308] {
        assert!(is_redirect(status));
    }
    for status in [200, 300, 304, 305, 306, 309, 404] {
        assert!(!is_redirect(status));
    }
}

#[test]
fn header_bounds_limit_count_and_bytes() {
    assert_eq!(ensure_header_bounds(&[(4, 10), (12, 3)]), Ok(()));
    let too_many = vec![(1, 1); 65];
    assert_eq!(ensure_header_bounds(&too_many), Err(ReceiptImageFailureCodeV1::HeaderLimit));
    assert_eq!(
        ensure_header_bounds(&[(8000, 8000), (200, 200)]),
        Err(ReceiptImageFailureCodeV1::HeaderLimit)
    );
}

#[test]
fn content_length_and_media_type_headers_are_strict() {
    assert_eq!(parse_content_length(&[]), Ok(None));
    assert_eq!(parse_content_length(&[b"1234".to_vec()]), Ok(Some(1234)));
    assert_eq!(
        parse_content_length(&[b"12a".to_vec()]),
        Err(ReceiptImageFailureCodeV1::ContentLengthRejected)
    );
    assert_eq!(
        parse_content_length(&[b"1".to_vec(), b"1".to_vec()]),
        Err(ReceiptImageFailureCodeV1::ContentLengthRejected)
    );
    assert_eq!(parse_content_length(&[b"9000000".to_vec()]), Ok(Some(9_000_000)));
    assert_eq!(parse_media_type(&[b"Image/PNG; charset=x".to_vec()]), Ok("image/png"));
    assert_eq!(
        parse_media_type(&[b"image/jpg".to_vec()]),
        Err(ReceiptImageFailureCodeV1::MediaTypeRejected)
    );
    assert_eq!(parse_media_type(&[b" image/webp ".to_vec()]), Ok("image/webp"));
    assert_eq!(
        parse_media_type(&[b"text/html".to_vec()]),
        Err(ReceiptImageFailureCodeV1::MediaTypeRejected)
    );
    assert_eq!(parse_media_type(&[]), Err(ReceiptImageFailureCodeV1::MediaTypeRejected));
    assert!(single_bounded_header(&[b"ok".to_vec()], 16).is_ok());
}

#[test]
fn magic_bytes_must_match_the_declared_media_type() {
    let png_magic = [0x89, b'P', b'N', b'G', 0x0d, 0x0a, 0x1a, 0x0a, 0, 0, 0, 0];
    assert_eq!(detect_and_match_format(&png_magic, "image/png"), Ok(ReceiptImageFormat::Png));
    assert_eq!(
        detect_and_match_format(&png_magic, "image/jpeg"),
        Err(ReceiptImageFailureCodeV1::MagicMismatch)
    );
    let jpeg_magic = [0xff, 0xd8, 0xff, 0xe0, 0, 0, 0, 0, 0, 0, 0, 0];
    assert_eq!(detect_and_match_format(&jpeg_magic, "image/jpeg"), Ok(ReceiptImageFormat::Jpeg));
}

#[test]
fn decoded_dimensions_are_bounded_on_both_sides() {
    assert_eq!(check_decoded_dimensions(32, 32), Ok(()));
    assert_eq!(check_decoded_dimensions(4096, 4096), Ok(()));
    assert_eq!(
        check_decoded_dimensions(31, 100),
        Err(ReceiptImageFailureCodeV1::DimensionsRejected)
    );
    assert_eq!(
        check_decoded_dimensions(4097, 100),
        Err(ReceiptImageFailureCodeV1::DimensionsRejected)
    );
}

#[test]
fn valid_structures_pass_and_garbage_does_not_decode() {
    let source = png_with_chunk(b"tEXt", b"note");
    assert_eq!(validate_image_structure(&source, ReceiptImageFormat::Png), Ok(()));
    assert_eq!(
        validate_jpeg(&[0xff, 0xd8, 0xff, 0xd9]),
        Err(ReceiptImageFailureCodeV1::StructureRejected)
    );
    let minimal_jpeg = [
        0xff, 0xd8, 0xff, 0xc0, 0x00, 0x02, 0xff, 0xda, 0x00, 0x02, 0x12, 0xff, 0x00, 0x34, 0xff,
        0xd9,
    ];
    assert_eq!(validate_jpeg(&minimal_jpeg), Ok(()));
    assert_eq!(
        validate_image_structure(&minimal_jpeg, ReceiptImageFormat::Jpeg),
        Ok(())
    );
    let mut truncated = source.clone();
    truncated.truncate(source.len() - 4);
    assert_eq!(validate_png(&truncated), Err(ReceiptImageFailureCodeV1::StructureRejected));
    assert_eq!(
        decode_and_derive_blocking(vec![0, 1, 2, 3], ReceiptImageFormat::Png),
        Err(ReceiptImageFailureCodeV1::DecodeFailed)
    );
    let tiny = {
        let pixels = vec![0_u8; 8 * 8 * 4];
        let mut png = Vec::new();
        image::codecs::png::PngEncoder::new(&mut png)
            .write_image(&pixels, 8, 8, image::ExtendedColorType::Rgba8)
            .unwrap();
        png
    };
    assert_eq!(
        decode_and_derive_blocking(tiny, ReceiptImageFormat::Png),
        Err(ReceiptImageFailureCodeV1::DimensionsRejected)
    );
}
