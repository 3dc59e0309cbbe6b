//! Log lines: the error-log line is composed exactly; the access-log line
//! is rendered through the configured template from exactly-composed
//! pieces. Appending the lines to the log files is the caller's step, and
//! is best-effort by design: it never blocks or fails a response.

use vstd::prelude::*;

use crate::config::Server;
use crate::outside::{now_timestamp, render_access_line, string_from_chars};
use crate::request::Request;
use crate::text::{
    chars_of, dec_chars, pad_right, push_all, spec_contains_seq, spec_dec, spec_pad_right,
};
use crate::paths::{spec_after_seq, spec_before_seq};

verus! {

/// A failure the server logs: the failing subsystem and its message.
pub enum ServerError {
    IOError(String),
    TeraError(String),
    TomlError(String),
    RegexError(String),
}

/// The text a `ServerError` is logged as.
pub open spec fn spec_describe(e: &ServerError) -> Seq<char> {
    match e {
        ServerError::IOError(m) => "IOError("@ + m@ + ")"@,
        ServerError::TeraError(m) => "TeraError("@ + m@ + ")"@,
        ServerError::TomlError(m) => "TomlError("@ + m@ + ")"@,
        ServerError::RegexError(m) => "RegexError("@ + m@ + ")"@,
    }
}

impl ServerError {
    /// The error's log text: its kind and its message.
    pub fn describe(&self) -> (r: String)
        ensures
            r@ == spec_describe(self),
    {
        let mut out = match self {
            ServerError::IOError(_) => chars_of("IOError("),
            ServerError::TeraError(_) => chars_of("TeraError("),
            ServerError::TomlError(_) => chars_of("TomlError("),
            ServerError::RegexError(_) => chars_of("RegexError("),
        };
        let msg = match self {
            ServerError::IOError(m) => m,
            ServerError::TeraError(m) => m,
            ServerError::TomlError(m) => m,
            ServerError::RegexError(m) => m,
        };
        let msg_chars = chars_of(msg.as_str());
        push_all(&mut out, &msg_chars);
        let close = chars_of(")");
        push_all(&mut out, &close);
        string_from_chars(&out)
    }
}

/// One error-log line: the timestamp, the padded method, host and port,
/// the failing function with its source position, and the error.
pub open spec fn spec_error_line(
    time: Seq<char>,
    method: Seq<char>,
    host: Seq<char>,
    port: u16,
    func_name: Seq<char>,
    filename: Seq<char>,
    line_number: u32,
    error: &ServerError,
) -> Seq<char> {
    "["@ + time + "]: "@ + spec_pad_right(method, 5) + " - "@ + host + ":"@ + spec_dec(
        port as nat,
    ) + " - Func: "@ + func_name + " at "@ + filename + ":"@ + spec_dec(line_number as nat)
        + " - Error: "@ + spec_describe(error) + "\n"@
}

/// The session id a cookie header carries: the value of the first
/// key=value token before the first ';', empty when the token is absent or
/// malformed.
pub open spec fn spec_session_id(cookie: Seq<char>) -> Seq<char> {
    let head = spec_before_seq(cookie, ";"@);
    if spec_contains_seq(head, "="@) && !spec_contains_seq(spec_after_seq(head, "="@), "="@) {
        spec_after_seq(head, "="@)
    } else {
        Seq::empty()
    }
}

/// The remote-address field of an access-log line: host, port and location.
pub open spec fn spec_access_addr(host: Seq<char>, port: u16, loc: Seq<char>) -> Seq<char> {
    host + ":"@ + spec_dec(port as nat) + loc
}

/// The session id of a cookie header: the value of its first key=value
/// token, empty when the header is absent or malformed.
pub fn session_id_of_cookie(cookie: &str) -> (r: String)
    ensures
        r@ == spec_session_id(cookie@),
{
    let chars = chars_of(cookie);
    let semi = chars_of(";");
    let eq = chars_of("=");
    let head = crate::paths::before_seq(&chars, &semi);
    let tail = crate::paths::after_seq(&head, &eq);
    if crate::text::contains_seq(&head, &eq) && !crate::text::contains_seq(&tail, &eq) {
        string_from_chars(&tail)
    } else {
        String::new()
    }
}

impl Server {
    /// Composes one error-log line from the request, the failing call site
    /// and the error, with the current time. The caller appends it (plus a
    /// newline) to the error log; that append is best-effort.
    pub fn error_log(
        request: &Request,
        func_name: &str,
        filename: &str,
        line_number: u32,
        error: &ServerError,
    ) -> (r: String)
        ensures
            exists|time: Seq<char>|
                r@ == spec_error_line(
                    time,
                    request.method@,
                    request.host@,
                    request.port,
                    func_name@,
                    filename@,
                    line_number,
                    error,
                ),
    {
        let time = now_timestamp();
        let r = Self::error_line(
            time.as_str(),
            request,
            func_name,
            filename,
            line_number,
            error,
        );
        proof {
            assert(r@ == spec_error_line(
                time@,
                request.method@,
                request.host@,
                request.port,
                func_name@,
                filename@,
                line_number,
                error,
            ));
        }
        r
    }

    /// Composes one error-log line for a given timestamp.
    pub fn error_line(
        time: &str,
        request: &Request,
        func_name: &str,
        filename: &str,
        line_number: u32,
        error: &ServerError,
    ) -> (r: String)
        ensures
            r@ == spec_error_line(
                time@,
                request.method@,
                request.host@,
                request.port,
                func_name@,
                filename@,
                line_number,
                error,
            ),
    {
        let mut out = chars_of("[");
        let time_chars = chars_of(time);
        push_all(&mut out, &time_chars);
        let sep1 = chars_of("]: ");
        push_all(&mut out, &sep1);
        let method = pad_right(&chars_of(request.method.as_str()), 5);
        push_all(&mut out, &method);
        let sep2 = chars_of(" - ");
        push_all(&mut out, &sep2);
        let host = chars_of(request.host.as_str());
        push_all(&mut out, &host);
        let colon = chars_of(":");
        push_all(&mut out, &colon);
        let port = dec_chars(request.port as u64);
        push_all(&mut out, &port);
        let sep3 = chars_of(" - Func: ");
        push_all(&mut out, &sep3);
        let func = chars_of(func_name);
        push_all(&mut out, &func);
        let sep4 = chars_of(" at ");
        push_all(&mut out, &sep4);
        let file = chars_of(filename);
        push_all(&mut out, &file);
        push_all(&mut out, &colon);
        let line = dec_chars(line_number as u64);
        push_all(&mut out, &line);
        let sep5 = chars_of(" - Error: ");
        push_all(&mut out, &sep5);
        let desc = chars_of(error.describe().as_str());
        push_all(&mut out, &desc);
        let nl = chars_of("\n");
        push_all(&mut out, &nl);
        string_from_chars(&out)
    }

    /// The remote-address field of an access-log line.
    pub fn access_addr(request: &Request) -> (r: String)
        ensures
            r@ == spec_access_addr(request.host@, request.port, request.location@),
    {
        let mut out = chars_of(request.host.as_str());
        let colon = chars_of(":");
        push_all(&mut out, &colon);
        let port = dec_chars(request.port as u64);
        push_all(&mut out, &port);
        let loc = chars_of(request.location.as_str());
        push_all(&mut out, &loc);
        string_from_chars(&out)
    }

    /// Renders one access-log line through the configured format template:
    /// the remote address, the session id read from the cookie, the current
    /// time, the method padded to six characters, the response status and
    /// the byte count the caller formatted. `None` when the format does not
    /// render; the caller logs that and appends nothing. Nothing can be
    /// promised of the rendered text itself.
    pub fn access_log(
        &self,
        request: &Request,
        format: &str,
        status_code: u16,
        cookie: &str,
        bytes_sent: &str,
    ) -> (r: Option<String>) {
        let addr = Self::access_addr(request);
        let user = session_id_of_cookie(cookie);
        let time = now_timestamp();
        let method = string_from_chars(&pad_right(&chars_of(request.method.as_str()), 6));
        render_access_line(
            format,
            addr.as_str(),
            user.as_str(),
            time.as_str(),
            method.as_str(),
            status_code,
            bytes_sent,
        )
    }
}

} // verus!
