//! The filesystem-mutating actions a request can trigger: folder creation,
//! deletion and upload. Each function decides what the server does — which
//! path is touched, which status answers, and where the client is sent —
//! and the caller performs the filesystem step it names and hands the
//! outcome back.

use vstd::prelude::*;

use crate::config::Server;
use crate::outside::string_from_chars;
use crate::paths::{spec_folder_name, spec_query_free};
use crate::request::{spec_field_value, Request};
use crate::response::{redirect_response, spec_redirect_head, Completion};
use crate::text::{chars_of, push_all};

verus! {

/// The target path of a create-folder request: the configured root plus
/// what the query string names.
pub open spec fn spec_create_target(root: Seq<char>, location: Seq<char>) -> Seq<char> {
    root + spec_folder_name(location)
}

/// What a create-folder request comes to, once the target's existence is
/// known.
pub enum CreateFolderStep {
    /// The target already exists: respond with this status.
    Conflict { code: u16, reason: String },
    /// Create the directory at `path`, then hand the outcome to
    /// `create_folder_result`.
    Create { path: String, redirect_to: String },
}

/// The target path of a delete request: root, location, a separator and
/// the "value" form field.
pub open spec fn spec_delete_target(
    root: Seq<char>,
    location: Seq<char>,
    fields: Seq<crate::request::FormField>,
) -> Seq<char> {
    root + location + "/"@ + spec_field_value(fields, "value"@)
}

/// What a delete request comes to, once the target has been probed.
pub enum DeleteStep {
    /// The constructed target is empty: redirect to the root location.
    RedirectRoot,
    /// The target does not exist: respond with this status.
    MissingTarget { code: u16, reason: String },
    /// Remove the directory at `path` and all its descendants, then
    /// redirect to `redirect_to`.
    RemoveDir { path: String, redirect_to: String },
    /// Remove the file at `path`, then redirect to `redirect_to`.
    RemoveFile { path: String, redirect_to: String },
}

/// What an upload request comes to.
pub enum UploadStep {
    /// The body did not arrive whole: respond with this status.
    Incomplete { code: u16, reason: String },
    /// The body is empty: respond with this status.
    EmptyBody { code: u16, reason: String },
    /// Write `data` to `path`, then hand the outcome to `upload_result`.
    Write { path: String, data: Vec<u8>, redirect_to: String },
}

impl Server {
    /// The directory a create-folder request names. The caller probes it
    /// and hands the outcome to `create_folder`.
    pub fn create_folder_target(&self, request: &Request) -> (r: String)
        ensures
            r@ == spec_create_target(self.root_directory@, request.location@),
    {
        let mut path = chars_of(self.root_directory.as_str());
        let name = Self::extract_folder_name(request.location.as_str());
        let name_chars = chars_of(name.as_str());
        push_all(&mut path, &name_chars);
        string_from_chars(&path)
    }

    /// Decides a create-folder request: 409 when the target already
    /// exists, otherwise the directory to create and the location — the
    /// request path with its query string stripped — to redirect to.
    pub fn create_folder(&self, request: &Request, target_exists: bool) -> (r: CreateFolderStep)
        ensures
            target_exists ==> (r matches CreateFolderStep::Conflict { code, reason } && code == 409
                && reason@ == "Le dossier existe déjà"@),
            !target_exists ==> (r matches CreateFolderStep::Create { path, redirect_to }
                && path@ == spec_create_target(self.root_directory@, request.location@)
                && redirect_to@ == spec_query_free(request.location@)),
    {
        if target_exists {
            CreateFolderStep::Conflict { code: 409, reason: "Le dossier existe déjà".to_owned() }
        } else {
            let path = self.create_folder_target(request);
            let loc_chars = chars_of(request.location.as_str());
            let qmark = chars_of("?");
            let base = crate::text::sub_chars(
                &loc_chars,
                0,
                match crate::text::find_seq(&loc_chars, &qmark) {
                    Some(i) => {
                        proof {
                            crate::text::lemma_find_first(loc_chars@, qmark@);
                        }
                        i
                    },
                    None => loc_chars.len(),
                },
            );
            CreateFolderStep::Create { path, redirect_to: string_from_chars(&base) }
        }
    }

    /// After the directory creation: the redirect when it succeeded, the
    /// 500 error page when it failed (the caller also logs the failure).
    pub fn create_folder_result(&self, created: bool, redirect_to: &str) -> (r: Completion)
        ensures
            created ==> (r matches Completion::Respond(resp) && resp.code == 302 && resp.head@
                == spec_redirect_head(redirect_to@) && resp.body@.len() == 0),
            !created ==> (r matches Completion::Failed { code, reason } && code == 500 && reason@
                == "Erreur interne du serveur"@),
    {
        if created {
            Completion::Respond(redirect_response(redirect_to))
        } else {
            Completion::Failed { code: 500, reason: "Erreur interne du serveur".to_owned() }
        }
    }

    /// The path a delete request names. The caller probes it and hands the
    /// outcome to `delete_elem`.
    pub fn delete_target(&self, request: &Request) -> (r: String)
        ensures
            r@ == spec_delete_target(self.root_directory@, request.location@, request.fields@),
    {
        let mut path = chars_of(self.root_directory.as_str());
        let loc_chars = chars_of(request.location.as_str());
        push_all(&mut path, &loc_chars);
        let sep = chars_of("/");
        push_all(&mut path, &sep);
        let value = request.extract_field("value");
        let value_chars = chars_of(value.as_str());
        push_all(&mut path, &value_chars);
        string_from_chars(&path)
    }

    /// Decides a delete request: redirect to "/" when the constructed
    /// target is empty, 400 when it does not exist, otherwise remove the
    /// directory (with its descendants) or the single file, and redirect
    /// back to the request location.
    pub fn delete_elem(&self, request: &Request, target_exists: bool, target_is_dir: bool) -> (r:
        DeleteStep)
        ensures
            ({
                let target = spec_delete_target(
                    self.root_directory@,
                    request.location@,
                    request.fields@,
                );
                &&& target.len() == 0 ==> r is RedirectRoot
                &&& target.len() > 0 && !target_exists ==> (r matches DeleteStep::MissingTarget {
                    code,
                    reason,
                } && code == 400 && reason@ == "Bad Request :l'element choisit n'existe pas"@)
                &&& target.len() > 0 && target_exists && target_is_dir ==> (r matches
                    DeleteStep::RemoveDir { path, redirect_to } && path@ == target && redirect_to@
                    == request.location@)
                &&& target.len() > 0 && target_exists && !target_is_dir ==> (r matches
                    DeleteStep::RemoveFile { path, redirect_to } && path@ == target && redirect_to@
                    == request.location@)
            }),
    {
        let target = self.delete_target(request);
        if target.as_str().unicode_len() == 0 {
            DeleteStep::RedirectRoot
        } else if !target_exists {
            DeleteStep::MissingTarget {
                code: 400,
                reason: "Bad Request :l'element choisit n'existe pas".to_owned(),
            }
        } else if target_is_dir {
            DeleteStep::RemoveDir { path: target, redirect_to: request.location.clone() }
        } else {
            DeleteStep::RemoveFile { path: target, redirect_to: request.location.clone() }
        }
    }

    /// Decides an upload: 400 when the body did not arrive whole, 400 when
    /// it is empty, otherwise write the decoded payload — byte for byte —
    /// to root/location/filename and redirect back to the location. The
    /// payload is what the multipart decoder extracted from the raw body.
    pub fn upload_file(&self, request: &Request, payload: Vec<u8>) -> (r: UploadStep)
        ensures
            !request.complete ==> (r matches UploadStep::Incomplete { code, reason } && code == 400
                && reason@ == "Bad Request: No file uploaded"@),
            request.complete && request.body@.len() == 0 ==> (r matches UploadStep::EmptyBody {
                code,
                reason,
            } && code == 400 && reason@ == "Bad Request: File size is zero"@),
            request.complete && request.body@.len() > 0 ==> (r matches UploadStep::Write {
                path,
                data,
                redirect_to,
            } && path@ == self.root_directory@ + request.location@ + "/"@ + spec_field_value(
                request.fields@,
                "filename"@,
            ) && data@ == payload@ && redirect_to@ == request.location@),
    {
        if !request.complete {
            return UploadStep::Incomplete {
                code: 400,
                reason: "Bad Request: No file uploaded".to_owned(),
            };
        }
        if request.body.len() == 0 {
            return UploadStep::EmptyBody {
                code: 400,
                reason: "Bad Request: File size is zero".to_owned(),
            };
        }
        let mut path = chars_of(self.root_directory.as_str());
        let loc_chars = chars_of(request.location.as_str());
        push_all(&mut path, &loc_chars);
        let sep = chars_of("/");
        push_all(&mut path, &sep);
        let filename = request.extract_field("filename");
        let filename_chars = chars_of(filename.as_str());
        push_all(&mut path, &filename_chars);
        UploadStep::Write {
            path: string_from_chars(&path),
            data: payload,
            redirect_to: request.location.clone(),
        }
    }

    /// After the payload write: the redirect when it succeeded, the 500
    /// error page when the open or write failed (the caller also logs the
    /// failure).
    pub fn upload_result(&self, written: bool, redirect_to: &str) -> (r: Completion)
        ensures
            written ==> (r matches Completion::Respond(resp) && resp.code == 302 && resp.head@
                == spec_redirect_head(redirect_to@) && resp.body@.len() == 0),
            !written ==> (r matches Completion::Failed { code, reason } && code == 500 && reason@
                == "Internal Server Error: Failed to write to file"@),
    {
        if written {
            Completion::Respond(redirect_response(redirect_to))
        } else {
            Completion::Failed {
                code: 500,
                reason: "Internal Server Error: Failed to write to file".to_owned(),
            }
        }
    }
}

} // verus!
