use extron_scaler::{decode_response, ExtronResponse};

#[test]
fn short_lines_are_unknown() {
    assert_eq!(decode_response(b"".to_vec()), ExtronResponse::Unknown);
    assert_eq!(decode_response(b"A".to_vec()), ExtronResponse::Unknown);
    assert_eq!(decode_response(b"Api".to_vec()), ExtronResponse::Unknown);
    assert_eq!(decode_response(b"Rec".to_vec()), ExtronResponse::Unknown);
}

#[test]
fn reconfig_literal() {
    assert_eq!(decode_response(b"Reconfig".to_vec()), ExtronResponse::Reconfig);
}

#[test]
fn reconfig_with_trailing_bytes_is_unknown() {
    assert_eq!(decode_response(b"Reconfigx".to_vec()), ExtronResponse::Unknown);
}

#[test]
fn active_pixels_with_payload() {
    assert_eq!(
        decode_response(b"Apix1920".to_vec()),
        ExtronResponse::ActivePixels(1920)
    );
}

#[test]
fn apix_without_digits_is_unknown() {
    assert_eq!(decode_response(b"Apix".to_vec()), ExtronResponse::Unknown);
}

#[test]
fn alin_with_letters_is_unknown() {
    assert_eq!(decode_response(b"Alinxyz".to_vec()), ExtronResponse::Unknown);
}

#[test]
fn active_lines_with_payload() {
    assert_eq!(
        decode_response(b"Alin1080".to_vec()),
        ExtronResponse::ActiveLines(1080)
    );
}

#[test]
fn acknowledgment_tags() {
    assert_eq!(decode_response(b"Hsiz".to_vec()), ExtronResponse::InputHSizeSet);
    assert_eq!(decode_response(b"Vsiz".to_vec()), ExtronResponse::InputVSizeSet);
    assert_eq!(decode_response(b"Hctr".to_vec()), ExtronResponse::HorizontalCenter);
    assert_eq!(decode_response(b"Vctr".to_vec()), ExtronResponse::VerticalCenter);
}

#[test]
fn acknowledgment_tag_ignores_remainder() {
    assert_eq!(decode_response(b"Hsiz00".to_vec()), ExtronResponse::InputHSizeSet);
}

#[test]
fn unrecognized_tag_is_unknown() {
    assert_eq!(decode_response(b"Img 1234".to_vec()), ExtronResponse::Unknown);
}

#[test]
fn invalid_utf8_is_unknown() {
    // The `Hsiz` tag followed by a stray continuation byte: not valid text.
    assert_eq!(
        decode_response(vec![0x48, 0x73, 0x69, 0x7a, 0xff]),
        ExtronResponse::Unknown
    );
    // A lone continuation byte padded to four bytes.
    assert_eq!(
        decode_response(vec![0x80, 0x41, 0x41, 0x41]),
        ExtronResponse::Unknown
    );
}

#[test]
fn valid_multibyte_text_is_unknown() {
    // A two-byte scalar (0xc3 0xa9) is valid text but matches no tag.
    assert_eq!(
        decode_response(vec![0x52, 0xc3, 0xa9, 0x63, 0x66, 0x67]),
        ExtronResponse::Unknown
    );
}

#[test]
fn pixel_count_at_and_above_the_limit() {
    assert_eq!(
        decode_response(b"Apix4294967295".to_vec()),
        ExtronResponse::ActivePixels(4294967295)
    );
    assert_eq!(
        decode_response(b"Apix4294967296".to_vec()),
        ExtronResponse::Unknown
    );
}

#[test]
fn leading_zeros_read_as_decimal() {
    assert_eq!(decode_response(b"Apix0042".to_vec()), ExtronResponse::ActivePixels(42));
    assert_eq!(decode_response(b"Alin0".to_vec()), ExtronResponse::ActiveLines(0));
}
