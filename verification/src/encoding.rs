//! Turning content into the text of a `data:` URL: a captured PNG image into
//! the text that is cached and handed out, which carries the image in
//! base64, and a page of HTML into one that a window can be opened on.

use vstd::prelude::*;
use vstd::string::StringExecFns;
use vstd::utf8::encode_utf8;

verus! {

/// The base64 text, in the standard alphabet and padded with `=`, of a
/// sequence of bytes. The encoding itself is the `base64` crate's; this names
/// its result.
pub uninterp spec fn base64_standard(bytes: Seq<u8>) -> Seq<char>;

/// Whether the base64 text of `len` bytes, four characters for every three
/// bytes begun, is short enough for its length to be a `usize`.
pub open spec fn encodable_len(len: nat) -> bool {
    4 * ((len + 2) / 3) <= usize::MAX
}

/// The `data:` URL of a PNG image.
pub open spec fn png_data_url(png: Seq<u8>) -> Seq<char> {
    "data:image/png;base64,"@ + base64_standard(png)
}

/// Calls `Engine::encode` of the `base64` crate on its `STANDARD` engine.
/// Trusted: the text returned is the standard padded base64 encoding of
/// `bytes`. The crate panics when the length of that text overflows `usize`,
/// which `requires` rules out.
#[verifier::external_body]
fn base64_encode(bytes: &[u8]) -> (text: String)
    requires
        encodable_len(bytes@.len()),
    ensures
        text@ == base64_standard(bytes@),
{
    base64::Engine::encode(&base64::engine::general_purpose::STANDARD, bytes)
}

/// Whether an image of `len` bytes can be encoded.
pub fn can_encode(len: usize) -> (b: bool)
    ensures
        b == encodable_len(len as nat),
{
    let groups: usize = if len % 3 == 0 {
        len / 3
    } else {
        len / 3 + 1
    };
    groups <= usize::MAX / 4
}

/// The `data:` URL under which a PNG image is cached.
pub fn encode_png_data_url(png: &[u8]) -> (url: String)
    requires
        encodable_len(png@.len()),
    ensures
        url@ == png_data_url(png@),
{
    let text = base64_encode(png);
    let mut url = String::from_str("data:image/png;base64,");
    url.append(text.as_str());
    url
}

/// Whether a byte stands for itself in a URL: the letters and digits of
/// ASCII and `-`, `.`, `_`, `~`.
pub open spec fn is_unreserved(b: u8) -> bool {
    ||| 0x30 <= b <= 0x39
    ||| 0x41 <= b <= 0x5a
    ||| 0x61 <= b <= 0x7a
    ||| b == 0x2d
    ||| b == 0x2e
    ||| b == 0x5f
    ||| b == 0x7e
}

/// The hexadecimal digit, in upper case, of a number below sixteen.
pub open spec fn hex_digit(n: u8) -> char {
    if n < 10 {
        ((0x30 + n) as u8) as char
    } else {
        ((0x41 + n - 10) as u8) as char
    }
}

/// A byte as it is written in a URL: as itself where it is unreserved, else
/// as `%` and its two hexadecimal digits.
pub open spec fn percent_encoded_byte(b: u8) -> Seq<char> {
    if is_unreserved(b) {
        seq![b as char]
    } else {
        seq!['%', hex_digit(b / 16), hex_digit(b % 16)]
    }
}

/// A sequence of bytes as it is written in a URL.
pub open spec fn percent_encoded_bytes(bytes: Seq<u8>) -> Seq<char>
    decreases bytes.len(),
{
    if bytes.len() == 0 {
        Seq::<char>::empty()
    } else {
        percent_encoded_bytes(bytes.drop_last()) + percent_encoded_byte(bytes.last())
    }
}

/// A text as it is written in a URL: the bytes of its UTF-8 form, each
/// percent-encoded.
pub open spec fn percent_encoded(text: Seq<char>) -> Seq<char> {
    percent_encoded_bytes(encode_utf8(text))
}

/// The `data:` URL of a page of HTML.
pub open spec fn html_data_url(html: Seq<char>) -> Seq<char> {
    "data:text/html;charset=utf-8,"@ + percent_encoded(html)
}

/// Calls `encode` of the `urlencoding` crate. Trusted: the text returned is
/// `text` with every byte of its UTF-8 form percent-encoded, but for the
/// unreserved ones, and with hexadecimal digits in upper case.
#[verifier::external_body]
fn url_encode(text: &str) -> (encoded: String)
    ensures
        encoded@ == percent_encoded(text@),
{
    urlencoding::encode(text).into_owned()
}

/// The `data:` URL on which a window shows the page `html`.
pub fn encode_html_data_url(html: &str) -> (url: String)
    ensures
        url@ == html_data_url(html@),
{
    let text = url_encode(html);
    let mut url = String::from_str("data:text/html;charset=utf-8,");
    url.append(text.as_str());
    url
}

} // verus!
