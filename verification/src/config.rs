//! Per-virtual-host configuration: immutable settings the dispatcher reads.

use vstd::prelude::*;

verus! {

/// One redirection rule: requests for `source` are redirected to `target`.
#[derive(Debug, Clone)]
pub struct Redirection {
    pub source: String,
    pub target: String,
}

impl Redirection {
    pub fn new(source: String, target: String) -> (r: Redirection)
        ensures
            r.source@ == source@,
            r.target@ == target@,
    {
        Redirection { source, target }
    }
}

/// The settings of one virtual host. Built once at startup and then only read.
#[derive(Debug, Clone)]
pub struct Server {
    pub ip_addr: String,
    pub hostname: String,
    pub ports: Vec<u16>,
    pub root_directory: String,
    pub error_path: String,
    pub default_file: String,
    pub upload_limit: u32,
    pub accepted_methods: Vec<String>,
    pub directory_listing: bool,
    pub redirections: Vec<Redirection>,
    pub exclusion: Vec<String>,
}

impl Server {
    pub fn new(
        ip_addr: String,
        hostname: String,
        ports: Vec<u16>,
        root_directory: String,
        error_path: String,
        default_file: String,
        upload_limit: u32,
        accepted_methods: Vec<String>,
        directory_listing: bool,
        redirections: Vec<Redirection>,
        exclusion: Vec<String>,
    ) -> (r: Self)
        ensures
            r == (Server {
                ip_addr,
                hostname,
                ports,
                root_directory,
                error_path,
                default_file,
                upload_limit,
                accepted_methods,
                directory_listing,
                redirections,
                exclusion,
            }),
    {
        Self {
            ip_addr,
            hostname,
            ports,
            root_directory,
            error_path,
            default_file,
            upload_limit,
            accepted_methods,
            directory_listing,
            redirections,
            exclusion,
        }
    }
}

} // verus!
