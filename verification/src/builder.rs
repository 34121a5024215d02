//! The dev server builder.
//!
//! The host assembles the server from a project directory and a root
//! directory, then adjusts entry requests, network options and logging
//! options one setter at a time. Building checks that a port and a hostname
//! were supplied, then runs the port search; serving itself is the host's
//! work.

use vstd::prelude::*;

use crate::envelope::IssueSeverity;
use crate::port::{port_search_correct, find_port_from, BindOutcome, PortSearchResult};

verus! {

/// What the server should compile first.
pub enum EntryRequest {
    /// A path relative to the project directory.
    Relative(String),
    /// A module and the path it is requested from.
    Module(String, String),
}

/// How many consecutive ports a build attempts.
pub const PORT_MAX_ATTEMPTS: u16 = 10;

/// The assembled-but-not-yet-served dev server configuration.
pub struct NextDevServerBuilder {
    pub project_dir: String,
    pub root_dir: String,
    pub entry_requests: Vec<EntryRequest>,
    pub eager_compile: bool,
    pub hostname: Option<String>,
    pub port: Option<u16>,
    pub browserslist_query: String,
    pub log_level: IssueSeverity,
    pub show_all: bool,
    pub log_detail: bool,
    pub allow_retry: bool,
}

/// Why a build cannot start.
#[derive(Clone, Copy, Debug, PartialEq, Eq, Structural)]
pub enum BuildError {
    /// No port was supplied.
    PortMissing,
    /// No hostname was supplied.
    HostnameMissing,
}

impl BuildError {
    /// The flattened, human-readable form.
    pub fn message(&self) -> (r: String)
        ensures
            match self {
                BuildError::PortMissing => r@ == "port must be set"@,
                BuildError::HostnameMissing => r@ == "hostname must be set"@,
            },
    {
        match self {
            BuildError::PortMissing => String::from_str("port must be set"),
            BuildError::HostnameMissing => String::from_str("hostname must be set"),
        }
    }
}

impl NextDevServerBuilder {
    /// A builder over the given directories, with everything else at its
    /// default: no entries, no hostname, no port, a broad browser support
    /// query, warnings and up logged, and no retrying of occupied ports.
    pub fn new(project_dir: String, root_dir: String) -> (r: NextDevServerBuilder)
        ensures
            r.project_dir == project_dir,
            r.root_dir == root_dir,
            r.entry_requests@.len() == 0,
            !r.eager_compile,
            r.hostname is None,
            r.port is None,
            r.browserslist_query@
                == "last 1 Chrome versions, last 1 Firefox versions, last 1 Safari versions, last 1 Edge versions"@,
            r.log_level == IssueSeverity::Warning,
            !r.show_all,
            !r.log_detail,
            !r.allow_retry,
    {
        NextDevServerBuilder {
            project_dir,
            root_dir,
            entry_requests: Vec::new(),
            eager_compile: false,
            hostname: None,
            port: None,
            browserslist_query: String::from_str(
                "last 1 Chrome versions, last 1 Firefox versions, last 1 Safari versions, last 1 Edge versions",
            ),
            log_level: IssueSeverity::Warning,
            show_all: false,
            log_detail: false,
            allow_retry: false,
        }
    }

    /// Add one entry request.
    pub fn entry_request(self, entry_asset_path: EntryRequest) -> (r: NextDevServerBuilder)
        ensures
            r.entry_requests@ == self.entry_requests@.push(entry_asset_path),
            r == (NextDevServerBuilder { entry_requests: r.entry_requests, ..self }),
    {
        let mut b = self;
        b.entry_requests.push(entry_asset_path);
        b
    }

    /// Set whether entries compile eagerly.
    pub fn eager_compile(self, eager_compile: bool) -> (r: NextDevServerBuilder)
        ensures
            r == (NextDevServerBuilder { eager_compile, ..self }),
    {
        NextDevServerBuilder { eager_compile, ..self }
    }

    /// Set the hostname to bind.
    pub fn hostname(self, hostname: String) -> (r: NextDevServerBuilder)
        ensures
            r == (NextDevServerBuilder { hostname: Some(hostname), ..self }),
    {
        NextDevServerBuilder { hostname: Some(hostname), ..self }
    }

    /// Set the first port to try.
    pub fn port(self, port: u16) -> (r: NextDevServerBuilder)
        ensures
            r == (NextDevServerBuilder { port: Some(port), ..self }),
    {
        NextDevServerBuilder { port: Some(port), ..self }
    }

    /// Set the browser support query.
    pub fn browserslist_query(self, browserslist_query: String) -> (r: NextDevServerBuilder)
        ensures
            r == (NextDevServerBuilder { browserslist_query, ..self }),
    {
        NextDevServerBuilder { browserslist_query, ..self }
    }

    /// Set the least severity that is logged.
    pub fn log_level(self, log_level: IssueSeverity) -> (r: NextDevServerBuilder)
        ensures
            r == (NextDevServerBuilder { log_level, ..self }),
    {
        NextDevServerBuilder { log_level, ..self }
    }

    /// Set whether issues below the level are shown too.
    pub fn show_all(self, show_all: bool) -> (r: NextDevServerBuilder)
        ensures
            r == (NextDevServerBuilder { show_all, ..self }),
    {
        NextDevServerBuilder { show_all, ..self }
    }

    /// Set whether an occupied port may be retried.
    pub fn allow_retry(self, allow_retry: bool) -> (r: NextDevServerBuilder)
        ensures
            r == (NextDevServerBuilder { allow_retry, ..self }),
    {
        NextDevServerBuilder { allow_retry, ..self }
    }

    /// Set whether log lines carry full detail.
    pub fn log_detail(self, log_detail: bool) -> (r: NextDevServerBuilder)
        ensures
            r == (NextDevServerBuilder { log_detail, ..self }),
    {
        NextDevServerBuilder { log_detail, ..self }
    }

    /// The address a build will bind: the hostname and port must both have
    /// been supplied, the port being checked first.
    pub fn bind_target(&self) -> (r: Result<(String, u16), BuildError>)
        ensures
            r is Ok <==> (self.port is Some && self.hostname is Some),
            self.port is None ==> r == Result::<(String, u16), BuildError>::Err(
                BuildError::PortMissing,
            ),
            self.port is Some && self.hostname is None ==> r == Result::<
                (String, u16),
                BuildError,
            >::Err(BuildError::HostnameMissing),
            r matches Ok(t) ==> self.hostname matches Some(h) && t.0@ == h@ && self.port == Some(
                t.1,
            ),
    {
        let port = match &self.port {
            Some(p) => *p,
            None => {
                return Err(BuildError::PortMissing);
            },
        };
        let host = match &self.hostname {
            Some(h) => h.clone(),
            None => {
                return Err(BuildError::HostnameMissing);
            },
        };
        Ok((host, port))
    }

    /// Run the port search with this builder's retry setting against the
    /// observed bind outcomes, one per attempt.
    pub fn find_port(&self, starting_port: u16, max_attempts: u16, outcomes: Vec<
        BindOutcome,
    >) -> (r: PortSearchResult)
        requires
            1 <= max_attempts,
            outcomes@.len() == max_attempts,
            starting_port + max_attempts - 1 <= u16::MAX,
        ensures
            port_search_correct(self.allow_retry, starting_port, max_attempts, outcomes@, r),
    {
        find_port_from(self.allow_retry, starting_port, max_attempts, outcomes)
    }
}

} // verus!
