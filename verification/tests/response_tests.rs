//! Wire-format responses, listings, paths and log lines on concrete values.

use http_dispatch::listing::{classify_entry, DirEntry};
use http_dispatch::logging::{session_id_of_cookie, ServerError};
use http_dispatch::response::{error_response, ok_response, redirect_response, Completion};
use http_dispatch::{remove_prefix, remove_suffix, Redirection, Request, Server};

fn server(exclusion: Vec<&str>, listing: bool) -> Server {
    Server::new(
        "127.0.0.1".to_string(),
        "localhost".to_string(),
        vec![8080],
        "www".to_string(),
        "src/templates/error.html".to_string(),
        "src/templates/listing.html".to_string(),
        10,
        vec!["GET".to_string()],
        listing,
        Vec::<Redirection>::new(),
        exclusion.into_iter().map(|s| s.to_string()).collect(),
    )
}

fn request(method: &str, location: &str) -> Request {
    Request {
        method: method.to_string(),
        location: location.to_string(),
        host: "localhost".to_string(),
        port: 8080,
        length: 0,
        body: Vec::new(),
        boundary: None,
        content_type: String::new(),
        complete: true,
        id_session: String::new(),
        fields: Vec::new(),
    }
}

#[test]
fn redirect_wire_format_disables_caching() {
    let r = redirect_response("/files");
    assert_eq!(r.code, 302);
    assert_eq!(
        r.head,
        "HTTP/1.1 302 Found\r\nLocation: /files\r\nContent-Length: 0\r\nCache-Control: no-cache, no-store, must-revalidate\r\nPragma: no-cache\r\nExpires: 0\r\n\r\n"
    );
    assert!(r.body.is_empty());
}

#[test]
fn error_wire_format_counts_the_body() {
    let r = error_response(404, "Not Found", b"hi".to_vec());
    assert_eq!(r.code, 404);
    assert_eq!(
        r.head,
        "HTTP/1.1 404 Not Found\r\nContent-Type: text/html\r\nContent-Length: 2\r\n\r\n"
    );
    assert_eq!(r.body, b"hi".to_vec());
}

#[test]
fn ok_wire_format_carries_cookie_line() {
    let r = ok_response("image/png", "Set-Cookie: sid=1\r\n", vec![0, 1, 2]);
    assert_eq!(r.code, 200);
    assert_eq!(
        r.head,
        "HTTP/1.1 200 OK\r\nContent-Type: image/png\r\nContent-Length: 3\r\nSet-Cookie: sid=1\r\n\r\n"
    );
    assert_eq!(r.body, vec![0, 1, 2]);
}

#[test]
fn content_types_follow_the_extension_table() {
    let cases = [
        ("a/x.html", "text/html", false),
        ("a/x.css", "text/css", false),
        ("x.js", "application/javascript", false),
        ("x.png", "image/png", false),
        ("x.jpg", "image/jpeg", false),
        ("x.jpeg", "image/jpeg", false),
        ("x.gif", "image/gif", false),
        ("x.json", "application/json", false),
        ("cgi/x.rb", "text/plain", true),
        ("x.weird", "text/plain", false),
        ("noextension", "text/plain", false),
        ("dir.d/noextension", "text/plain", false),
    ];
    for (path, ct, cgi) in cases {
        let plan = Server::static_plan(path);
        assert_eq!(plan.content_type, ct, "path {}", path);
        assert_eq!(plan.is_cgi, cgi, "path {}", path);
    }
}

#[test]
fn entry_types_follow_the_extension_table() {
    assert_eq!(classify_entry("x.rb", false), "ruby");
    assert_eq!(classify_entry("x.jpg", false), "image");
    assert_eq!(classify_entry("x.jpeg", false), "image");
    assert_eq!(classify_entry("x.png", false), "image");
    assert_eq!(classify_entry("x.txt", false), "text");
    assert_eq!(classify_entry("x.bin", false), "file");
    assert_eq!(classify_entry("plain", false), "file");
    assert_eq!(classify_entry("a.b.c", false), "file");
    assert_eq!(classify_entry("x.rb", true), "folder");
    assert_eq!(classify_entry("anything", true), "folder");
}

#[test]
fn listing_excludes_matching_names() {
    let s = server(vec!["^\\.git"], true);
    let entries = vec![
        DirEntry {
            name: ".gitignore".to_string(),
            is_dir: false,
        },
        DirEntry {
            name: "index.html".to_string(),
            is_dir: false,
        },
    ];
    let listed = s.list_directory("/site", &entries).expect("patterns compile");
    assert_eq!(listed.len(), 1);
    assert_eq!(listed[0].entry, "index.html");
    assert_eq!(listed[0].entry_type, "file");
    assert_eq!(listed[0].link, "/site/index.html");
    assert!(!listed[0].is_directory);
}

#[test]
fn listing_keeps_directories_only_when_enabled() {
    let entries = vec![
        DirEntry {
            name: "sub".to_string(),
            is_dir: true,
        },
        DirEntry {
            name: "a.txt".to_string(),
            is_dir: false,
        },
    ];
    let with = server(vec![], true).list_directory("/d/", &entries).expect("patterns compile");
    assert_eq!(with.len(), 2);
    assert_eq!(with[0].entry, "sub");
    assert_eq!(with[0].entry_type, "folder");
    assert_eq!(with[0].link, "/d/sub");
    let without = server(vec![], false)
        .list_directory("/d/", &entries)
        .expect("patterns compile");
    assert_eq!(without.len(), 1);
    assert_eq!(without[0].entry, "a.txt");
    assert_eq!(without[0].entry_type, "text");
}

#[test]
fn invalid_exclusion_patterns_are_reported() {
    let s = server(vec!["("], true);
    let entries = vec![DirEntry {
        name: "a.txt".to_string(),
        is_dir: false,
    }];
    assert!(s.list_directory("/d", &entries).is_none());
}

#[test]
fn cleaned_paths_strip_or_rebase() {
    assert_eq!(Server::check_and_clean_path("/plain.txt"), "plain.txt");
    assert_eq!(
        Server::check_and_clean_path("/deep/images/a.png"),
        "/images/a.png"
    );
    assert_eq!(Server::check_and_clean_path("/css/site.css"), "/css/site.css");
    assert_eq!(Server::check_and_clean_path("x/images/y.png"), "/images/y.png");
}

#[test]
fn error_page_renders_through_the_template() {
    let s = server(vec![], true);
    let r = s
        .send_error_response("Error {{ error.code }}: {{ error.status }}", 404, "Not Found")
        .expect("a plain template renders");
    assert_eq!(r.code, 404);
    assert_eq!(r.body, b"Error 404: Not Found".to_vec());
    assert_eq!(
        r.head,
        "HTTP/1.1 404 Not Found\r\nContent-Type: text/html\r\nContent-Length: 20\r\n\r\n"
    );
    assert!(s.send_error_response("{% broken", 500, "x").is_none());
}

#[test]
fn listing_page_becomes_a_200_response() {
    let s = server(vec![], true);
    match s.handle_listing_directory(Some("<ul></ul>".to_string()), "") {
        Completion::Respond(r) => {
            assert_eq!(r.code, 200);
            assert_eq!(
                r.head,
                "HTTP/1.1 200 OK\r\nContent-Type: text/html\r\nContent-Length: 9\r\n\r\n"
            );
            assert_eq!(r.body, b"<ul></ul>".to_vec());
        }
        _ => panic!("a rendered page is served"),
    }
    match s.handle_listing_directory(None, "") {
        Completion::Failed { code, reason } => {
            assert_eq!(code, 500);
            assert_eq!(reason, "Internal Server Error");
        }
        _ => panic!("a failed render is a server error"),
    }
}

#[test]
fn static_body_is_served_verbatim() {
    let s = server(vec![], true);
    match s.handle_static_file("application/json", "", Some(b"{}".to_vec())) {
        Completion::Respond(r) => {
            assert_eq!(r.code, 200);
            assert_eq!(r.body, b"{}".to_vec());
        }
        _ => panic!("readable content is served"),
    }
    match s.handle_static_file("application/json", "", None) {
        Completion::Failed { code, reason } => {
            assert_eq!(code, 500);
            assert_eq!(reason, "Internal Server Error");
        }
        _ => panic!("a failed read is a server error"),
    }
}

#[test]
fn session_id_is_the_first_cookie_value() {
    assert_eq!(session_id_of_cookie("sid=abc; theme=dark"), "abc");
    assert_eq!(session_id_of_cookie("sid=abc"), "abc");
    assert_eq!(session_id_of_cookie(""), "");
    assert_eq!(session_id_of_cookie("garbage"), "");
    assert_eq!(session_id_of_cookie("a=b=c; d=e"), "");
}

#[test]
fn error_line_is_composed_exactly() {
    let req = request("GET", "/x");
    let err = ServerError::IOError("missing".to_string());
    let line = Server::error_line("01-02-2026 10:00:00", &req, "serve", "server.rs", 42, &err);
    assert_eq!(
        line,
        "[01-02-2026 10:00:00]: GET   - localhost:8080 - Func: serve at server.rs:42 - Error: IOError(missing)\n"
    );
}

#[test]
fn error_log_uses_the_clock() {
    let req = request("GET", "/x");
    let err = ServerError::RegexError("bad".to_string());
    let line = Server::error_log(&req, "list", "server.rs", 7, &err);
    assert!(line.ends_with("- Func: list at server.rs:7 - Error: RegexError(bad)\n"));
    assert!(line.starts_with("["));
}

#[test]
fn access_line_renders_through_the_format() {
    let s = server(vec![], true);
    let req = request("GET", "/files");
    let line = s
        .access_log(
            &req,
            "{{ remote_addr }} [{{ remote_user }}] {{ method }} {{ status }} {{ bytes_sent }}",
            200,
            "sid=u1",
            "0.512",
        )
        .expect("a plain format renders");
    assert_eq!(line, "localhost:8080/files [u1] GET    200 0.512");
    assert!(s.access_log(&req, "{% broken", 200, "", "0").is_none());
}

#[test]
fn redirect_helper_matches_the_wire_format() {
    let s = server(vec![], true);
    let r = s.send_redirect_response("/files");
    assert_eq!(r.head, redirect_response("/files").head);
}

#[test]
fn prefix_and_suffix_removal_take_one_occurrence() {
    let s: Vec<char> = "//a/".chars().collect();
    let slash: Vec<char> = "/".chars().collect();
    let no_prefix: String = remove_prefix(&s, &slash).into_iter().collect();
    assert_eq!(no_prefix, "/a/");
    let no_suffix: String = remove_suffix(&s, &slash).into_iter().collect();
    assert_eq!(no_suffix, "//a");
    let other: Vec<char> = "b".chars().collect();
    let untouched: String = remove_prefix(&other, &slash).into_iter().collect();
    assert_eq!(untouched, "b");
}
