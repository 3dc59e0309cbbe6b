//! Wire-format responses: the header block and body of everything the
//! server sends, built exactly as the contracts state them.

use vstd::prelude::*;
use vstd::string::StringSliceAdditionalSpecFns;

use crate::outside::string_from_chars;
use crate::text::{chars_of, dec_chars, push_all, spec_dec};

verus! {

/// One HTTP response, ready for the wire: the header block is written
/// first, then the body bytes.
pub struct Response {
    pub code: u16,
    pub head: String,
    pub body: Vec<u8>,
}

/// The header block of a 302 redirect that disables caching.
pub open spec fn spec_redirect_head(location: Seq<char>) -> Seq<char> {
    "HTTP/1.1 302 Found\r\nLocation: "@ + location
        + "\r\nContent-Length: 0\r\nCache-Control: no-cache, no-store, must-revalidate\r\nPragma: no-cache\r\nExpires: 0\r\n\r\n"@
}

/// The header block of a 302 redirect that closes the connection.
pub open spec fn spec_redirect_close_head(location: Seq<char>) -> Seq<char> {
    "HTTP/1.1 302 Found\r\nLocation: "@ + location
        + "\r\nContent-Length: 0\r\nConnection: close\r\n\r\n"@
}

/// The header block of an error response carrying an HTML body of `n` bytes.
pub open spec fn spec_error_head(code: u16, reason: Seq<char>, n: nat) -> Seq<char> {
    "HTTP/1.1 "@ + spec_dec(code as nat) + " "@ + reason
        + "\r\nContent-Type: text/html\r\nContent-Length: "@ + spec_dec(n) + "\r\n\r\n"@
}

/// The header block of a 200 response: content type, length, then the
/// cookie header line the caller supplies (it may be empty).
pub open spec fn spec_ok_head(content_type: Seq<char>, n: nat, cookie: Seq<char>) -> Seq<char> {
    "HTTP/1.1 200 OK\r\nContent-Type: "@ + content_type + "\r\nContent-Length: "@ + spec_dec(n)
        + "\r\n"@ + cookie + "\r\n"@
}

/// The cache-disabling 302 redirect to `location`, with an empty body.
pub fn redirect_response(location: &str) -> (r: Response)
    ensures
        r.code == 302,
        r.head@ == spec_redirect_head(location@),
        r.body@ == Seq::<u8>::empty(),
{
    let mut head = chars_of("HTTP/1.1 302 Found\r\nLocation: ");
    let loc = chars_of(location);
    push_all(&mut head, &loc);
    let tail = chars_of(
        "\r\nContent-Length: 0\r\nCache-Control: no-cache, no-store, must-revalidate\r\nPragma: no-cache\r\nExpires: 0\r\n\r\n",
    );
    push_all(&mut head, &tail);
    Response { code: 302, head: string_from_chars(&head), body: Vec::new() }
}

/// The connection-closing 302 redirect to `location`, with an empty body.
pub fn redirect_close_response(location: &str) -> (r: Response)
    ensures
        r.code == 302,
        r.head@ == spec_redirect_close_head(location@),
        r.body@ == Seq::<u8>::empty(),
{
    let mut head = chars_of("HTTP/1.1 302 Found\r\nLocation: ");
    let loc = chars_of(location);
    push_all(&mut head, &loc);
    let tail = chars_of("\r\nContent-Length: 0\r\nConnection: close\r\n\r\n");
    push_all(&mut head, &tail);
    Response { code: 302, head: string_from_chars(&head), body: Vec::new() }
}

/// An error response: status line with `code` and `reason`, an HTML content
/// type, and the rendered page as body.
pub fn error_response(code: u16, reason: &str, body: Vec<u8>) -> (r: Response)
    ensures
        r.code == code,
        r.head@ == spec_error_head(code, reason@, body@.len() as nat),
        r.body@ == body@,
{
    let mut head = chars_of("HTTP/1.1 ");
    let code_chars = dec_chars(code as u64);
    push_all(&mut head, &code_chars);
    let sp = chars_of(" ");
    push_all(&mut head, &sp);
    let reason_chars = chars_of(reason);
    push_all(&mut head, &reason_chars);
    let mid = chars_of("\r\nContent-Type: text/html\r\nContent-Length: ");
    push_all(&mut head, &mid);
    let len_chars = dec_chars(body.len() as u64);
    push_all(&mut head, &len_chars);
    let tail = chars_of("\r\n\r\n");
    push_all(&mut head, &tail);
    Response { code, head: string_from_chars(&head), body }
}

/// A 200 response with the given content type, cookie header line and body.
pub fn ok_response(content_type: &str, cookie: &str, body: Vec<u8>) -> (r: Response)
    ensures
        r.code == 200,
        r.head@ == spec_ok_head(content_type@, body@.len() as nat, cookie@),
        r.body@ == body@,
{
    let mut head = chars_of("HTTP/1.1 200 OK\r\nContent-Type: ");
    let ct = chars_of(content_type);
    push_all(&mut head, &ct);
    let mid = chars_of("\r\nContent-Length: ");
    push_all(&mut head, &mid);
    let len_chars = dec_chars(body.len() as u64);
    push_all(&mut head, &len_chars);
    let crlf = chars_of("\r\n");
    push_all(&mut head, &crlf);
    let cookie_chars = chars_of(cookie);
    push_all(&mut head, &cookie_chars);
    let crlf2 = chars_of("\r\n");
    push_all(&mut head, &crlf2);
    Response { code: 200, head: string_from_chars(&head), body }
}

/// The bytes of a rendered page, for use as a response body.
pub fn body_bytes(s: &str) -> (r: Vec<u8>)
    ensures
        r@ == s.spec_bytes(),
{
    vstd::slice::slice_to_vec(s.as_bytes())
}

/// How a dispatch branch ends once its outside step has reported back:
/// with a response to write, or with an error page to render under the
/// carried status.
pub enum Completion {
    /// Write this response.
    Respond(Response),
    /// Render and send the error page for this status.
    Failed { code: u16, reason: String },
}

} // verus!
