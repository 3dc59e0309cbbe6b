//! The request dispatcher: the fixed, short-circuiting decision order that
//! turns one parsed request into one response. The gates that need no
//! filesystem answer are decided here outright; the branches that do name
//! the path to probe, and a follow-up function decides on the probe's
//! answer.

use vstd::prelude::*;
use vstd::string::StringSliceAdditionalSpecFns;

use crate::config::Server;
use crate::outside::string_from_chars;
use crate::paths::spec_clean_path;
use crate::redirect::{spec_redirect, RedirectDecision, RedirectOutcome};
use crate::request::{spec_has_field, Request};
use crate::paths::spec_cleanable;
use crate::response::{
    body_bytes, error_response, ok_response, redirect_close_response, spec_error_head,
    spec_ok_head, spec_redirect_close_head, Completion, Response,
};
use crate::text::{
    chars_eq, chars_of, contains_char, contains_seq, push_all, remove_prefix, remove_suffix,
    spec_contains_char, spec_contains_seq, spec_last_index, spec_remove_prefix,
    spec_remove_suffix, spec_trim_right, spec_upper, to_upper, trim_right_set,
};

verus! {

/// Whether `method` is one of the accepted methods, compared without
/// regard to ASCII case.
pub open spec fn spec_method_allowed(methods: Seq<String>, method: Seq<char>) -> bool {
    exists|i: int| 0 <= i < methods.len() && spec_upper(methods[i]@) == spec_upper(method)
}

/// Whether the declared body length exceeds the configured limit, which is
/// expressed in KiB.
pub open spec fn spec_too_large(limit_kib: u32, length: u32) -> bool {
    length > limit_kib * 1024
}

/// Whether a dispatch reaches the path-cleaning step: none of the earlier
/// branches — listing, query string, POST — takes the request first.
pub open spec fn spec_needs_clean(method: Seq<char>, loc: Seq<char>) -> bool {
    &&& !spec_wants_listing(method, loc)
    &&& !spec_contains_char(loc, '?')
    &&& spec_upper(method) != "POST"@
}

/// Whether the request asks for a directory listing: a location without a
/// dot or a query string, under the GET method.
pub open spec fn spec_wants_listing(method: Seq<char>, loc: Seq<char>) -> bool {
    &&& !spec_contains_char(loc, '.')
    &&& !spec_contains_char(loc, '?')
    &&& spec_upper(method) == "GET"@
}

/// The directory a listing request names: the root without its trailing
/// separator, then the location.
pub open spec fn spec_listing_dir(root: Seq<char>, loc: Seq<char>) -> Seq<char> {
    spec_remove_suffix(root, "/"@) + loc
}

/// The candidate file path of a non-listing request: the cleaned location
/// under the configured root, or under the fixed static-assets root when
/// the cleaned location carries an "/images/" or "/css/" segment.
pub open spec fn spec_candidate(root: Seq<char>, loc: Seq<char>) -> Seq<char> {
    let cleaned = spec_clean_path(loc);
    let dir = if spec_contains_seq(cleaned, "/images/"@) || spec_contains_seq(cleaned, "/css/"@) {
        "src/static_files"@
    } else {
        root
    };
    spec_remove_suffix(dir, "/"@) + "/"@ + spec_remove_prefix(cleaned, "/"@)
}

/// What the dispatcher decides for one request. Terminal decisions carry
/// the response or its ingredients; the others name the action whose
/// follow-up function finishes the dispatch.
pub enum Dispatch {
    /// Respond with this error page.
    Error { code: u16, reason: String },
    /// Respond with this redirect, already in wire form.
    Redirect { response: Response },
    /// Probe `probe` and hand the outcome to `listing_step`; when it
    /// exists, enumerate `dir` and list it.
    Listing { probe: String, dir: String },
    /// A create-folder request: continue with `create_folder`.
    CreateFolder,
    /// A delete request: continue with `delete_elem`.
    Delete,
    /// An upload request: continue with `upload_file`.
    Upload,
    /// Probe `path` and hand the outcome to `static_step`; when it exists,
    /// serve it as a static file (or through CGI).
    StaticCandidate { path: String },
}

/// What a listing branch does once its directory has been probed.
pub enum ListingStep {
    /// The directory does not exist: respond with this error page.
    NotFound { code: u16, reason: String },
    /// Enumerate the directory and list it.
    Enumerate,
}

/// What a static branch does once its candidate file has been probed.
pub enum StaticStep {
    /// The file does not exist: respond with this error page.
    NotFound { code: u16, reason: String },
    /// Read the file (or run it through CGI) and serve it.
    Serve,
}

impl Server {
    /// Whether the request method is accepted, compared case-insensitively.
    fn method_allowed(&self, method: &str) -> (r: bool)
        ensures
            r == spec_method_allowed(self.accepted_methods@, method@),
    {
        let mu = to_upper(&chars_of(method));
        let mut i: usize = 0;
        while i < self.accepted_methods.len()
            invariant
                0 <= i <= self.accepted_methods@.len(),
                mu@ == spec_upper(method@),
                forall|j: int|
                    0 <= j < i ==> spec_upper(self.accepted_methods@[j]@) != spec_upper(method@),
            decreases self.accepted_methods@.len() - i,
        {
            let au = to_upper(&chars_of(self.accepted_methods[i].as_str()));
            if chars_eq(&au, &mu) {
                return true;
            }
            i += 1;
        }
        false
    }

    /// The dispatcher's decision order: method gate (405), size gate (413),
    /// redirect gate (508 or a final 302), then the listing branch for an
    /// extensionless, query-free GET; what is left is ranked query-string
    /// first (create-folder), then POST with a "file_to_delete" field
    /// (delete), then any POST (upload), then the candidate file path.
    pub fn handle_request(&self, request: &Request) -> (r: Dispatch)
        requires
            spec_needs_clean(request.method@, request.location@) ==> spec_cleanable(
                request.location@,
            ),
        ensures
            ({
                let method_ok = spec_method_allowed(self.accepted_methods@, request.method@);
                let large = spec_too_large(self.upload_limit, request.length);
                let redirect = spec_redirect(self.redirections@, request.location@);
                let listing = spec_wants_listing(request.method@, request.location@);
                let post = spec_upper(request.method@) == "POST"@;
                &&& !method_ok ==> (r matches Dispatch::Error { code, reason } && code == 405
                    && reason@ == "Method Not Allowed"@)
                &&& method_ok && large ==> (r matches Dispatch::Error { code, reason } && code
                    == 413 && reason@ == "Content Too Large"@)
                &&& method_ok && !large && redirect is Loop ==> (r matches Dispatch::Error {
                    code,
                    reason,
                } && code == 508 && reason@ == "Loop Detected"@)
                &&& redirect matches RedirectDecision::Target(t) ==> ((method_ok && !large) ==> (
                r matches Dispatch::Redirect { response } && response.code == 302 && response.head@
                    == spec_redirect_close_head(t) && response.body@.len() == 0))
                &&& method_ok && !large && redirect is Pass && listing ==> (r matches
                    Dispatch::Listing { probe, dir } && dir@ == spec_listing_dir(
                    self.root_directory@,
                    request.location@,
                ) && probe@ == spec_trim_right(
                    spec_listing_dir(self.root_directory@, request.location@),
                    "/"@,
                ))
                &&& method_ok && !large && redirect is Pass && !listing && spec_contains_char(
                    request.location@,
                    '?',
                ) ==> r is CreateFolder
                &&& method_ok && !large && redirect is Pass && !listing && !spec_contains_char(
                    request.location@,
                    '?',
                ) && post && spec_has_field(request.fields@, "file_to_delete"@) ==> r is Delete
                &&& method_ok && !large && redirect is Pass && !listing && !spec_contains_char(
                    request.location@,
                    '?',
                ) && post && !spec_has_field(request.fields@, "file_to_delete"@) ==> r is Upload
                &&& method_ok && !large && redirect is Pass && !listing && !spec_contains_char(
                    request.location@,
                    '?',
                ) && !post ==> (r matches Dispatch::StaticCandidate { path } && path@
                    == spec_candidate(self.root_directory@, request.location@))
            }),
    {
        if !self.method_allowed(request.method.as_str()) {
            return Dispatch::Error { code: 405, reason: "Method Not Allowed".to_owned() };
        }
        if request.length as u64 > self.upload_limit as u64 * 1024 {
            return Dispatch::Error { code: 413, reason: "Content Too Large".to_owned() };
        }
        match self.handle_redirection(request.location.as_str()) {
            RedirectOutcome::LoopDetected => {
                return Dispatch::Error { code: 508, reason: "Loop Detected".to_owned() };
            },
            RedirectOutcome::Redirect { target } => {
                return Dispatch::Redirect { response: redirect_close_response(target.as_str()) };
            },
            RedirectOutcome::NoRule => {},
        }
        let loc = chars_of(request.location.as_str());
        let has_dot = contains_char(&loc, '.');
        let has_query = contains_char(&loc, '?');
        let method_upper = to_upper(&chars_of(request.method.as_str()));
        let is_get = chars_eq(&method_upper, &chars_of("GET"));
        if !has_dot && !has_query && is_get {
            let root = chars_of(self.root_directory.as_str());
            let slash = chars_of("/");
            let mut dir = remove_suffix(&root, &slash);
            push_all(&mut dir, &loc);
            let probe = trim_right_set(&dir, &slash);
            return Dispatch::Listing {
                probe: string_from_chars(&probe),
                dir: string_from_chars(&dir),
            };
        }
        if has_query {
            return Dispatch::CreateFolder;
        }
        let is_post = chars_eq(&method_upper, &chars_of("POST"));
        if is_post {
            if request.has_field("file_to_delete") {
                return Dispatch::Delete;
            }
            return Dispatch::Upload;
        }
        let cleaned_str = Self::check_and_clean_path(request.location.as_str());
        let cleaned = chars_of(cleaned_str.as_str());
        let images = chars_of("/images/");
        let css = chars_of("/css/");
        let slash = chars_of("/");
        let dir = if contains_seq(&cleaned, &images) || contains_seq(&cleaned, &css) {
            chars_of("src/static_files")
        } else {
            chars_of(self.root_directory.as_str())
        };
        let mut path = remove_suffix(&dir, &slash);
        push_all(&mut path, &slash);
        let rest = remove_prefix(&cleaned, &slash);
        push_all(&mut path, &rest);
        Dispatch::StaticCandidate { path: string_from_chars(&path) }
    }

    /// After probing the listing directory: enumerate it when it exists,
    /// else a 404 error page.
    pub fn listing_step(exists: bool) -> (r: ListingStep)
        ensures
            !exists ==> (r matches ListingStep::NotFound { code, reason } && code == 404 && reason@
                == "Not Found x"@),
            exists ==> r is Enumerate,
    {
        if exists {
            ListingStep::Enumerate
        } else {
            ListingStep::NotFound { code: 404, reason: "Not Found x".to_owned() }
        }
    }

    /// After probing the candidate file: serve it when it exists, else a
    /// 404 error page.
    pub fn static_step(exists: bool) -> (r: StaticStep)
        ensures
            !exists ==> (r matches StaticStep::NotFound { code, reason } && code == 404 && reason@
                == "Not Found"@),
            exists ==> r is Serve,
    {
        if exists {
            StaticStep::Serve
        } else {
            StaticStep::NotFound { code: 404, reason: "Not Found".to_owned() }
        }
    }

    /// Serves a static file: the 200 response with the resolved content
    /// type, the cookie header line and the content — the file's bytes, or
    /// a CGI run's output — as the body. A read that failed (no content)
    /// becomes the 500 error page (the caller also logs the failure).
    pub fn handle_static_file(&self, content_type: &str, cookie: &str, content: Option<Vec<u8>>)
        -> (r: Completion)
        ensures
            content matches Some(bytes) ==> (r matches Completion::Respond(resp) && resp.code
                == 200 && resp.head@ == spec_ok_head(content_type@, bytes@.len() as nat, cookie@)
                && resp.body@ == bytes@),
            content is None ==> (r matches Completion::Failed { code, reason } && code == 500
                && reason@ == "Internal Server Error"@),
    {
        match content {
            Some(bytes) => Completion::Respond(ok_response(content_type, cookie, bytes)),
            None => Completion::Failed { code: 500, reason: "Internal Server Error".to_owned() },
        }
    }

    /// The 200 response carrying a rendered directory listing; when the
    /// template engine produced no page, the 500 error page instead (the
    /// caller also logs the failure).
    pub fn handle_listing_directory(&self, rendered: Option<String>, cookie: &str) -> (r:
        Completion)
        ensures
            rendered matches Some(page) ==> (r matches Completion::Respond(resp) && resp.code
                == 200 && resp.body@ == vstd::utf8::encode_utf8(page@) && resp.head@
                == spec_ok_head(
                "text/html"@,
                vstd::utf8::encode_utf8(page@).len() as nat,
                cookie@,
            )),
            rendered is None ==> (r matches Completion::Failed { code, reason } && code == 500
                && reason@ == "Internal Server Error"@),
    {
        match rendered {
            Some(page) => {
                let body = body_bytes(page.as_str());
                self.handle_static_file("text/html", cookie, Some(body))
            },
            None => Completion::Failed { code: 500, reason: "Internal Server Error".to_owned() },
        }
    }

    /// Renders the error template for `code` and `status_message` and wraps
    /// it in an error response. `None` when the template engine produced no
    /// page: the caller logs that and sends nothing, so the client may see
    /// no body.
    pub fn send_error_response(&self, error_template: &str, code: u16, status_message: &str) -> (r:
        Option<Response>)
        ensures
            r matches Some(resp) ==> resp.code == code && resp.head@ == spec_error_head(
                code,
                status_message@,
                resp.body@.len() as nat,
            ),
    {
        match crate::outside::render_error_body(error_template, code, status_message) {
            Some(page) => {
                let body = body_bytes(page.as_str());
                Some(error_response(code, status_message, body))
            },
            None => None,
        }
    }

    /// The cache-disabling 302 redirect to `location` that ends the
    /// mutating actions.
    pub fn send_redirect_response(&self, location: &str) -> (r: Response)
        ensures
            r.code == 302,
            r.head@ == crate::response::spec_redirect_head(location@),
            r.body@.len() == 0,
    {
        crate::response::redirect_response(location)
    }
}

/// The file-name component of a path: what follows the last separator.
pub open spec fn spec_file_name(p: Seq<char>) -> Seq<char> {
    if spec_contains_char(p, '/') {
        p.skip(spec_last_index(p, '/') + 1)
    } else {
        p
    }
}

/// The extension of a path: what follows the last dot of its file name,
/// none when the file name has no dot past its first character.
pub open spec fn spec_extension(p: Seq<char>) -> Option<Seq<char>> {
    let name = spec_file_name(p);
    if spec_last_index(name, '.') >= 1 {
        Some(name.skip(spec_last_index(name, '.') + 1))
    } else {
        None
    }
}

/// The content type of an extension, from the fixed table; anything
/// unknown is plain text.
pub open spec fn spec_ext_table(ext: Seq<char>) -> Seq<char> {
    if ext == "html"@ {
        "text/html"@
    } else if ext == "css"@ {
        "text/css"@
    } else if ext == "js"@ {
        "application/javascript"@
    } else if ext == "png"@ {
        "image/png"@
    } else if ext == "jpg"@ || ext == "jpeg"@ {
        "image/jpeg"@
    } else if ext == "gif"@ {
        "image/gif"@
    } else if ext == "json"@ {
        "application/json"@
    } else {
        "text/plain"@
    }
}

/// The content type a static file is served with.
pub open spec fn spec_content_type(p: Seq<char>) -> Seq<char> {
    match spec_extension(p) {
        Option::None => "text/plain"@,
        Option::Some(ext) => spec_ext_table(ext),
    }
}

/// Whether a static file is handed to the CGI runner instead of being
/// served as it is: exactly the "rb" extension.
pub open spec fn spec_is_cgi(p: Seq<char>) -> bool {
    spec_extension(p) == Option::Some("rb"@)
}

/// How a candidate file is served: with which content type, and whether
/// its bytes are replaced by a CGI run's output.
pub struct StaticPlan {
    pub content_type: String,
    pub is_cgi: bool,
}

/// The serving plan of one extension.
fn ext_plan(e: &Vec<char>) -> (r: StaticPlan)
    ensures
        r.content_type@ == spec_ext_table(e@),
        r.is_cgi == (e@ == "rb"@),
{
    proof {
        reveal_strlit("html");
        reveal_strlit("css");
        reveal_strlit("js");
        reveal_strlit("png");
        reveal_strlit("jpg");
        reveal_strlit("jpeg");
        reveal_strlit("gif");
        reveal_strlit("json");
        reveal_strlit("rb");
        assert("rb"@.len() == 2);
        assert("html"@.len() == 4);
        assert("css"@.len() == 3);
        assert("js"@.len() == 2 && "js"@[0] == 'j');
        assert("rb"@[0] == 'r');
        assert("png"@.len() == 3);
        assert("jpg"@.len() == 3);
        assert("jpeg"@.len() == 4);
        assert("gif"@.len() == 3);
        assert("json"@.len() == 4);
        assert("html"@ != "rb"@);
        assert("css"@ != "rb"@);
        assert("js"@ != "rb"@);
        assert("png"@ != "rb"@);
        assert("jpg"@ != "rb"@);
        assert("jpeg"@ != "rb"@);
        assert("gif"@ != "rb"@);
        assert("json"@ != "rb"@);
    }
    if chars_eq(e, &chars_of("html")) {
        StaticPlan { content_type: "text/html".to_owned(), is_cgi: false }
    } else if chars_eq(e, &chars_of("css")) {
        StaticPlan { content_type: "text/css".to_owned(), is_cgi: false }
    } else if chars_eq(e, &chars_of("js")) {
        StaticPlan { content_type: "application/javascript".to_owned(), is_cgi: false }
    } else if chars_eq(e, &chars_of("png")) {
        StaticPlan { content_type: "image/png".to_owned(), is_cgi: false }
    } else if chars_eq(e, &chars_of("jpg")) || chars_eq(e, &chars_of("jpeg")) {
        StaticPlan { content_type: "image/jpeg".to_owned(), is_cgi: false }
    } else if chars_eq(e, &chars_of("gif")) {
        StaticPlan { content_type: "image/gif".to_owned(), is_cgi: false }
    } else if chars_eq(e, &chars_of("json")) {
        StaticPlan { content_type: "application/json".to_owned(), is_cgi: false }
    } else if chars_eq(e, &chars_of("rb")) {
        StaticPlan { content_type: "text/plain".to_owned(), is_cgi: true }
    } else {
        StaticPlan { content_type: "text/plain".to_owned(), is_cgi: false }
    }
}

impl Server {
    /// Resolves how the file at `path` is served: the content type from the
    /// extension table, and whether the CGI runner produces the body.
    pub fn static_plan(path: &str) -> (r: StaticPlan)
        ensures
            r.content_type@ == spec_content_type(path@),
            r.is_cgi == spec_is_cgi(path@),
    {
        let p = chars_of(path);
        let name = match crate::text::rfind_char(&p, '/') {
            Some(i) => {
                proof {
                    crate::text::lemma_last_index_of_max(p@, '/', i as int);
                }
                let n = p.len();
                crate::text::sub_chars(&p, i + 1, n)
            },
            None => {
                proof {
                    crate::text::lemma_last_index_absent(p@, '/');
                }
                crate::text::clone_chars(&p)
            },
        };
        proof {
            assert(name@ =~= spec_file_name(path@));
        }
        match crate::text::rfind_char(&name, '.') {
            Some(i) => {
                proof {
                    crate::text::lemma_last_index_of_max(name@, '.', i as int);
                }
                if i >= 1 {
                    let n = name.len();
                    let e = crate::text::sub_chars(&name, i + 1, n);
                    proof {
                        assert(e@ =~= spec_extension(path@)->Some_0);
                    }
                    ext_plan(&e)
                } else {
                    StaticPlan { content_type: "text/plain".to_owned(), is_cgi: false }
                }
            },
            None => {
                proof {
                    crate::text::lemma_last_index_absent(name@, '.');
                }
                StaticPlan { content_type: "text/plain".to_owned(), is_cgi: false }
            },
        }
    }
}

} // verus!
