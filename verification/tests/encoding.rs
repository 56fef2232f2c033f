use framesense::encoding::can_encode;
use framesense::encoding::encode_png_data_url;

#[test]
fn data_url_carries_the_image_in_base64() {
    assert_eq!(encode_png_data_url(b"hello"), "data:image/png;base64,aGVsbG8=");
    assert_eq!(encode_png_data_url(b"hello!"), "data:image/png;base64,aGVsbG8h");
    assert_eq!(encode_png_data_url(b"ab"), "data:image/png;base64,YWI=");
    assert_eq!(encode_png_data_url(b"a"), "data:image/png;base64,YQ==");
}

#[test]
fn data_url_of_an_empty_image_is_the_prefix() {
    assert_eq!(encode_png_data_url(&[]), "data:image/png;base64,");
}

#[test]
fn data_url_uses_the_standard_alphabet() {
    // 0xfb 0xff encodes to "+/8=" in the standard alphabet, "-_8=" in the URL-safe one
    assert_eq!(encode_png_data_url(&[0xfb, 0xff]), "data:image/png;base64,+/8=");
}

#[test]
fn every_length_that_memory_can_hold_can_be_encoded() {
    assert!(can_encode(0));
    assert!(can_encode(1));
    assert!(can_encode(3));
    assert!(can_encode(isize::MAX as usize));
}

#[test]
fn lengths_whose_text_overflows_cannot_be_encoded() {
    assert!(!can_encode(usize::MAX));
    // four characters for every three bytes begun
    let limit = usize::MAX / 4 * 3;
    assert!(can_encode(limit));
    assert!(!can_encode(limit + 1));
}

use framesense::encoding::encode_html_data_url;

#[test]
fn html_data_url_percent_encodes_the_page() {
    assert_eq!(
        encode_html_data_url("<b>x y</b>"),
        "data:text/html;charset=utf-8,%3Cb%3Ex%20y%3C%2Fb%3E"
    );
    assert_eq!(encode_html_data_url(""), "data:text/html;charset=utf-8,");
}

#[test]
fn html_data_url_keeps_the_unreserved_characters() {
    assert_eq!(
        encode_html_data_url("AZaz09-._~"),
        "data:text/html;charset=utf-8,AZaz09-._~"
    );
}

#[test]
fn html_data_url_encodes_each_byte_of_utf8_in_upper_case() {
    assert_eq!(encode_html_data_url("ä"), "data:text/html;charset=utf-8,%C3%A4");
    assert_eq!(encode_html_data_url("\n+/"), "data:text/html;charset=utf-8,%0A%2B%2F");
}
