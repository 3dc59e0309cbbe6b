//! The dispatcher's routing order, on concrete requests.

use http_dispatch::actions::{CreateFolderStep, DeleteStep, UploadStep};
use http_dispatch::dispatch::{Dispatch, ListingStep, StaticStep};
use http_dispatch::response::Completion;
use http_dispatch::redirect::RedirectOutcome;
use http_dispatch::{FormField, Redirection, Request, Server};

fn server(
    accepted: Vec<&str>,
    limit_kib: u32,
    redirections: Vec<(&str, &str)>,
    exclusion: Vec<&str>,
    listing: bool,
) -> Server {
    Server::new(
        "127.0.0.1".to_string(),
        "localhost".to_string(),
        vec![8080],
        "www".to_string(),
        "src/templates/error.html".to_string(),
        "src/templates/listing.html".to_string(),
        limit_kib,
        accepted.into_iter().map(|s| s.to_string()).collect(),
        listing,
        redirections
            .into_iter()
            .map(|(s, t)| Redirection::new(s.to_string(), t.to_string()))
            .collect(),
        exclusion.into_iter().map(|s| s.to_string()).collect(),
    )
}

fn request(method: &str, location: &str) -> Request {
    Request {
        method: method.to_string(),
        location: location.to_string(),
        host: "localhost".to_string(),
        port: 8080,
        length: 0,
        body: Vec::new(),
        boundary: None,
        content_type: String::new(),
        complete: true,
        id_session: String::new(),
        fields: Vec::new(),
    }
}

#[test]
fn lowercase_method_not_accepted_is_405() {
    let s = server(vec!["GET"], 10, vec![], vec![], true);
    match s.handle_request(&request("post", "/anything")) {
        Dispatch::Error { code, reason } => {
            assert_eq!(code, 405);
            assert_eq!(reason, "Method Not Allowed");
        }
        _ => panic!("expected an error decision"),
    }
}

#[test]
fn method_gate_ignores_case_both_ways() {
    let s = server(vec!["get"], 10, vec![], vec![], true);
    match s.handle_request(&request("GET", "/a.txt")) {
        Dispatch::StaticCandidate { .. } => {}
        _ => panic!("an accepted method continues to routing"),
    }
    let s2 = server(vec!["GET"], 10, vec![], vec![], true);
    match s2.handle_request(&request("delete", "/a.txt")) {
        Dispatch::Error { code, .. } => assert_eq!(code, 405),
        _ => panic!("unlisted method must be refused"),
    }
}

#[test]
fn oversized_request_is_413() {
    let s = server(vec!["GET"], 1, vec![], vec![], true);
    let mut req = request("GET", "/a.txt");
    req.length = 1025;
    match s.handle_request(&req) {
        Dispatch::Error { code, reason } => {
            assert_eq!(code, 413);
            assert_eq!(reason, "Content Too Large");
        }
        _ => panic!("expected an error decision"),
    }
    req.length = 1024;
    match s.handle_request(&req) {
        Dispatch::Error { .. } => panic!("a length at the limit passes"),
        _ => {}
    }
}

#[test]
fn single_rule_redirects_to_target() {
    let s = server(vec!["GET"], 10, vec![("/old", "/new")], vec![], true);
    match s.handle_request(&request("GET", "/old")) {
        Dispatch::Redirect { response } => {
            assert_eq!(response.code, 302);
            assert_eq!(
                response.head,
                "HTTP/1.1 302 Found\r\nLocation: /new\r\nContent-Length: 0\r\nConnection: close\r\n\r\n"
            );
            assert!(response.body.is_empty());
        }
        _ => panic!("expected a redirect decision"),
    }
}

#[test]
fn chained_rules_are_a_loop() {
    let s = server(
        vec!["GET"],
        10,
        vec![("/a", "/b"), ("/b", "/c")],
        vec![],
        true,
    );
    match s.handle_request(&request("GET", "/a")) {
        Dispatch::Error { code, reason } => {
            assert_eq!(code, 508);
            assert_eq!(reason, "Loop Detected");
        }
        _ => panic!("expected a loop decision"),
    }
}

#[test]
fn redirect_outcomes_match_the_rules() {
    let s = server(
        vec!["GET"],
        10,
        vec![("/a", "/b"), ("/b", "/c")],
        vec![],
        true,
    );
    match s.handle_redirection("/a") {
        RedirectOutcome::LoopDetected => {}
        _ => panic!("target /b is also a source"),
    }
    match s.handle_redirection("/b") {
        RedirectOutcome::Redirect { target } => assert_eq!(target, "/c"),
        _ => panic!("/b has a rule and /c is no source"),
    }
    match s.handle_redirection("/c") {
        RedirectOutcome::NoRule => {}
        _ => panic!("/c matches no rule"),
    }
}

#[test]
fn extensionless_query_free_get_lists_the_directory() {
    let s = server(vec!["GET"], 10, vec![], vec![], true);
    match s.handle_request(&request("GET", "/files")) {
        Dispatch::Listing { probe, dir } => {
            assert_eq!(dir, "www/files");
            assert_eq!(probe, "www/files");
        }
        _ => panic!("expected the listing branch"),
    }
    match s.handle_request(&request("GET", "/files/")) {
        Dispatch::Listing { probe, dir } => {
            assert_eq!(dir, "www/files/");
            assert_eq!(probe, "www/files");
        }
        _ => panic!("expected the listing branch"),
    }
}

#[test]
fn listing_probe_decides_404() {
    match Server::listing_step(false) {
        ListingStep::NotFound { code, reason } => {
            assert_eq!(code, 404);
            assert_eq!(reason, "Not Found x");
        }
        _ => panic!("a missing directory is 404"),
    }
    match Server::listing_step(true) {
        ListingStep::Enumerate => {}
        _ => panic!("an existing directory is enumerated"),
    }
}

#[test]
fn query_string_routes_to_create_folder() {
    let s = server(vec!["GET"], 10, vec![], vec![], true);
    match s.handle_request(&request("GET", "/files?foldername=new")) {
        Dispatch::CreateFolder => {}
        _ => panic!("a query string means create-folder"),
    }
}

#[test]
fn post_with_delete_field_routes_to_delete() {
    let s = server(vec!["POST"], 10, vec![], vec![], true);
    let mut req = request("POST", "/files.d");
    req.fields.push(FormField {
        name: "file_to_delete".to_string(),
        value: "x".to_string(),
    });
    match s.handle_request(&req) {
        Dispatch::Delete => {}
        _ => panic!("expected the delete branch"),
    }
}

#[test]
fn plain_post_routes_to_upload() {
    let s = server(vec!["POST"], 10, vec![], vec![], true);
    match s.handle_request(&request("POST", "/files.d")) {
        Dispatch::Upload => {}
        _ => panic!("expected the upload branch"),
    }
}

#[test]
fn other_requests_resolve_a_candidate_path() {
    let s = server(vec!["GET"], 10, vec![], vec![], true);
    match s.handle_request(&request("GET", "/page.html")) {
        Dispatch::StaticCandidate { path } => assert_eq!(path, "www/page.html"),
        _ => panic!("expected a candidate path"),
    }
    match s.handle_request(&request("GET", "/css/style.css")) {
        Dispatch::StaticCandidate { path } => {
            assert_eq!(path, "src/static_files/css/style.css")
        }
        _ => panic!("expected a candidate path"),
    }
    match s.handle_request(&request("GET", "/deep/images/logo.png")) {
        Dispatch::StaticCandidate { path } => {
            assert_eq!(path, "src/static_files/images/logo.png")
        }
        _ => panic!("expected a candidate path"),
    }
}

#[test]
fn create_folder_conflicts_or_creates() {
    let s = server(vec!["GET"], 10, vec![], vec![], true);
    let req = request("GET", "/files?foldername=new");
    match s.create_folder(&req, true) {
        CreateFolderStep::Conflict { code, reason } => {
            assert_eq!(code, 409);
            assert_eq!(reason, "Le dossier existe déjà");
        }
        _ => panic!("an existing target is a conflict"),
    }
    match s.create_folder(&req, false) {
        CreateFolderStep::Create { path, redirect_to } => {
            assert_eq!(path, "www/files/new");
            assert_eq!(redirect_to, "/files");
        }
        _ => panic!("an absent target is created"),
    }
}

#[test]
fn folder_name_is_trimmed_of_quotes_and_blanks() {
    assert_eq!(Server::extract_folder_name("/d?foldername=+new+"), "/d/new");
    assert_eq!(
        Server::extract_folder_name("/d?foldername=\"pics\""),
        "/d/pics"
    );
    assert_eq!(Server::extract_folder_name("/d?other=1"), "");
    assert_eq!(
        Server::extract_folder_name("/d?foldername=\u{2003}wide\u{2003}"),
        "/d/wide"
    );
    assert_eq!(Server::extract_folder_name("/d"), "");
}

#[test]
fn delete_decisions_follow_the_probe() {
    let s = server(vec!["POST"], 10, vec![], vec![], true);
    let mut req = request("POST", "/files");
    req.fields.push(FormField {
        name: "value".to_string(),
        value: "old.txt".to_string(),
    });
    assert_eq!(s.delete_target(&req), "www/files/old.txt");
    match s.delete_elem(&req, false, false) {
        DeleteStep::MissingTarget { code, reason } => {
            assert_eq!(code, 400);
            assert_eq!(reason, "Bad Request :l'element choisit n'existe pas");
        }
        _ => panic!("a missing target is refused"),
    }
    match s.delete_elem(&req, true, true) {
        DeleteStep::RemoveDir { path, redirect_to } => {
            assert_eq!(path, "www/files/old.txt");
            assert_eq!(redirect_to, "/files");
        }
        _ => panic!("a directory target is removed recursively"),
    }
    match s.delete_elem(&req, true, false) {
        DeleteStep::RemoveFile { path, redirect_to } => {
            assert_eq!(path, "www/files/old.txt");
            assert_eq!(redirect_to, "/files");
        }
        _ => panic!("a file target is removed alone"),
    }
}

#[test]
fn upload_requires_a_whole_nonempty_body() {
    let s = server(vec!["POST"], 10, vec![], vec![], true);
    let mut req = request("POST", "/files");
    req.fields.push(FormField {
        name: "filename".to_string(),
        value: "up.bin".to_string(),
    });
    req.complete = false;
    req.body = vec![1, 2];
    match s.upload_file(&req, vec![1, 2]) {
        UploadStep::Incomplete { code, reason } => {
            assert_eq!(code, 400);
            assert_eq!(reason, "Bad Request: No file uploaded");
        }
        _ => panic!("an incomplete body is refused"),
    }
    req.complete = true;
    req.body = Vec::new();
    match s.upload_file(&req, Vec::new()) {
        UploadStep::EmptyBody { code, reason } => {
            assert_eq!(code, 400);
            assert_eq!(reason, "Bad Request: File size is zero");
        }
        _ => panic!("an empty body is refused"),
    }
    req.body = vec![9, 9, 9];
    match s.upload_file(&req, vec![7, 8]) {
        UploadStep::Write {
            path,
            data,
            redirect_to,
        } => {
            assert_eq!(path, "www/files/up.bin");
            assert_eq!(data, vec![7, 8]);
            assert_eq!(redirect_to, "/files");
        }
        _ => panic!("a whole nonempty body is written"),
    }
}

#[test]
fn form_fields_are_looked_up_by_name() {
    let mut req = request("POST", "/x.y");
    req.fields.push(FormField {
        name: "a".to_string(),
        value: "1".to_string(),
    });
    req.fields.push(FormField {
        name: "b".to_string(),
        value: "2".to_string(),
    });
    assert_eq!(req.extract_field("b"), "2");
    assert_eq!(req.extract_field("c"), "");
    assert!(req.has_field("a"));
    assert!(!req.has_field("c"));
}

#[test]
fn first_matching_rule_decides_the_target() {
    let s = server(
        vec!["GET"],
        10,
        vec![("/a", "/b"), ("/a", "/c")],
        vec![],
        true,
    );
    match s.handle_redirection("/a") {
        RedirectOutcome::Redirect { target } => assert_eq!(target, "/b"),
        _ => panic!("the first rule for /a decides"),
    }
}

#[test]
fn create_target_without_folder_name_is_the_root() {
    let s = server(vec!["GET"], 10, vec![], vec![], true);
    let req = request("GET", "/d?other=1");
    assert_eq!(s.create_folder_target(&req), "www");
}

#[test]
fn static_probe_decides_404() {
    match Server::static_step(false) {
        StaticStep::NotFound { code, reason } => {
            assert_eq!(code, 404);
            assert_eq!(reason, "Not Found");
        }
        _ => panic!("a missing candidate is 404"),
    }
    match Server::static_step(true) {
        StaticStep::Serve => {}
        _ => panic!("an existing candidate is served"),
    }
}

#[test]
fn create_folder_outcome_redirects_or_fails() {
    let s = server(vec!["GET"], 10, vec![], vec![], true);
    match s.create_folder_result(true, "/files") {
        Completion::Respond(resp) => {
            assert_eq!(resp.code, 302);
            assert!(resp.head.contains("Location: /files\r\n"));
        }
        _ => panic!("a created directory redirects"),
    }
    match s.create_folder_result(false, "/files") {
        Completion::Failed { code, reason } => {
            assert_eq!(code, 500);
            assert_eq!(reason, "Erreur interne du serveur");
        }
        _ => panic!("a failed creation is a server error"),
    }
}

#[test]
fn upload_outcome_redirects_or_fails() {
    let s = server(vec!["POST"], 10, vec![], vec![], true);
    match s.upload_result(true, "/files") {
        Completion::Respond(resp) => assert_eq!(resp.code, 302),
        _ => panic!("a written upload redirects"),
    }
    match s.upload_result(false, "/files") {
        Completion::Failed { code, reason } => {
            assert_eq!(code, 500);
            assert_eq!(reason, "Internal Server Error: Failed to write to file");
        }
        _ => panic!("a failed write is a server error"),
    }
}
