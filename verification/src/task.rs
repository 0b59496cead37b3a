//! One upload: the file, the identifier under which it is indexed, its
//! content type and the address the request goes to.

use vstd::prelude::*;
use vstd::string::*;
use vstd::utf8::encode_utf8;

verus! {

/// Bytes that stay as they are in a percent-encoded identifier: ASCII
/// letters and digits and `-`, `.`, `_`, `~`.
pub open spec fn is_unreserved(b: u8) -> bool {
    ||| 0x30 <= b <= 0x39
    ||| 0x41 <= b <= 0x5a
    ||| 0x61 <= b <= 0x7a
    ||| b == 0x2d
    ||| b == 0x2e
    ||| b == 0x5f
    ||| b == 0x7e
}

/// The upper-case hexadecimal digit for `d`.
pub open spec fn hex_digit(d: u8) -> char
    recommends
        d < 16,
{
    if d < 10 {
        (0x30 + d) as u8 as char
    } else {
        (0x41 + d - 10) as u8 as char
    }
}

/// What one byte becomes when percent-encoded.
pub open spec fn percent_encoded_byte(b: u8) -> Seq<char> {
    if is_unreserved(b) {
        seq![b as char]
    } else {
        seq!['%', hex_digit(b / 16), hex_digit(b % 16)]
    }
}

/// The percent-encoding of a sequence of bytes.
pub open spec fn percent_encoded(bytes: Seq<u8>) -> Seq<char>
    decreases bytes.len(),
{
    if bytes.len() == 0 {
        Seq::empty()
    } else {
        percent_encoded(bytes.drop_last()) + percent_encoded_byte(bytes.last())
    }
}

/// The content type that `mime_guess` associates with the extension of `path`,
/// or `application/octet-stream` where it knows none, as text.
pub uninterp spec fn guessed_content_type(path: Seq<char>) -> Seq<char>;

/// The address of the request that uploads the file known as `identifier`.
pub open spec fn request_url(endpoint: Seq<char>, identifier: Seq<char>) -> Seq<char> {
    endpoint + "?resource.name="@ + identifier + "&literal.id="@ + identifier
}

/// `urlencoding::encode`: every byte of the UTF-8 form of `text` is kept if
/// it is unreserved and otherwise written as `%` and two upper-case
/// hexadecimal digits.
#[verifier::external_body]
fn url_encode(text: &str) -> (r: String)
    ensures
        r@ == percent_encoded(encode_utf8(text@)),
{
    urlencoding::encode(text).into_owned()
}

/// `mime_guess::from_path` followed by `MimeGuess::first_or_octet_stream`,
/// written out as text. The guess goes by the extension of `path` alone and
/// reads no file, so equal paths give equal results; which type belongs to
/// which extension is not stated.
#[verifier::external_body]
fn guess_content_type(path: &str) -> (r: String)
    ensures
        r@ == guessed_content_type(path@),
{
    mime_guess::from_path(path).first_or_octet_stream().to_string()
}

/// Builds the request address from the endpoint and an identifier that is
/// already encoded.
pub fn request_target(endpoint: &str, identifier: &str) -> (url: String)
    ensures
        url@ == request_url(endpoint@, identifier@),
{
    let mut url = String::from_str(endpoint);
    url.append("?resource.name=");
    url.append(identifier);
    url.append("&literal.id=");
    url.append(identifier);
    url
}

/// The identifier of a file: its absolute path, percent-encoded.
pub fn encoded_identifier(absolute_path: &str) -> (id: String)
    ensures
        id@ == percent_encoded(encode_utf8(absolute_path@)),
{
    url_encode(absolute_path)
}

/// One unit of upload work.
#[derive(Clone, Debug)]
pub struct UploadTask {
    /// Absolute path of the file to send.
    pub path: String,
    /// The path, percent-encoded; names the document in the index.
    pub identifier: String,
    /// Value of the `Content-Type` header.
    pub content_type: String,
    /// Where the request goes.
    pub url: String,
}

impl UploadTask {
    /// The task with these parts: the outcome of the content-type guess is
    /// taken as given, everything else follows from the path and the endpoint.
    pub fn assemble(absolute_path: &str, endpoint: &str, content_type: String) -> (t: UploadTask)
        ensures
            t.path@ == absolute_path@,
            t.identifier@ == percent_encoded(encode_utf8(absolute_path@)),
            t.content_type == content_type,
            t.url@ == request_url(endpoint@, t.identifier@),
    {
        let identifier = encoded_identifier(absolute_path);
        let url = request_target(endpoint, identifier.as_str());
        UploadTask { path: String::from_str(absolute_path), identifier, content_type, url }
    }

    /// The task that uploads the file at `absolute_path` to `endpoint`.
    pub fn new(absolute_path: &str, endpoint: &str) -> (t: UploadTask)
        ensures
            t.path@ == absolute_path@,
            t.identifier@ == percent_encoded(encode_utf8(absolute_path@)),
            t.content_type@ == guessed_content_type(absolute_path@),
            t.url@ == request_url(endpoint@, t.identifier@),
    {
        let content_type = guess_content_type(absolute_path);
        UploadTask::assemble(absolute_path, endpoint, content_type)
    }
}

/// Characters that cannot end or split a query parameter: the unreserved
/// ones and `%`.
pub open spec fn is_query_safe(c: char) -> bool {
    c == '%' || (c as u32 <= 0xff && is_unreserved(c as u8))
}

/// A percent-encoded identifier holds nothing but unreserved characters and
/// `%`, so in a request address it stays within its parameter.
pub proof fn lemma_identifier_is_query_safe(bytes: Seq<u8>)
    ensures
        forall|i: int|
            0 <= i < percent_encoded(bytes).len() ==> is_query_safe(
                #[trigger] percent_encoded(bytes)[i],
            ),
    decreases bytes.len(),
{
    if bytes.len() > 0 {
        lemma_identifier_is_query_safe(bytes.drop_last());
        let b = bytes.last();
        let tail = percent_encoded_byte(b);
        assert forall|j: int| 0 <= j < tail.len() implies is_query_safe(#[trigger] tail[j]) by {
            if !is_unreserved(b) {
                assert(b / 16 < 16 && b % 16 < 16);
            }
        }
        let head = percent_encoded(bytes.drop_last());
        let whole = percent_encoded(bytes);
        assert forall|i: int| 0 <= i < whole.len() implies is_query_safe(#[trigger] whole[i]) by {
            if i < head.len() {
                assert(whole[i] == head[i]);
            } else {
                assert(whole[i] == tail[i - head.len()]);
            }
        }
    }
}

} // verus!
