//! Client-side build context decisions.
//!
//! Which chunk directories the client build writes to, whether hot reload
//! is enabled, which compile-time names are defined, and which runtime
//! entries are injected all follow from the build mode and the context
//! kind. The bundler does the building; the decisions are taken here over
//! plain values.

use vstd::prelude::*;

use crate::paths::join_path;

verus! {

/// The mode the build runs in.
#[derive(Clone, Copy, Debug, PartialEq, Eq, Structural)]
pub enum NextMode {
    /// The built-in dev server.
    DevServer,
    /// Development through the host's own server.
    Development,
    /// A production build.
    Build,
}

impl NextMode {
    /// The value the `NODE_ENV` compile-time name is defined to.
    pub fn node_env(&self) -> (r: &'static str)
        ensures
            match self {
                NextMode::DevServer => r@ == "development"@,
                NextMode::Development => r@ == "development"@,
                NextMode::Build => r@ == "production"@,
            },
    {
        match self {
            NextMode::DevServer => "development",
            NextMode::Development => "development",
            NextMode::Build => "production",
        }
    }
}

/// The kind of client context a build serves.
pub enum ClientContextType {
    /// The pages directory.
    Pages { pages_dir: String },
    /// The app directory.
    App { app_dir: String },
    /// The fallback context.
    Fallback,
    /// Any other context.
    Other,
}

/// Where the client build's chunks go, and how.
pub struct ChunkingLayout {
    /// The root the build writes output under.
    pub output_root: String,
    /// Where chunks are written.
    pub chunk_root: String,
    /// Where static assets are written.
    pub asset_root: String,
    /// Whether hot reload is wired into the chunks.
    pub hot_module_replacement: bool,
    /// The path chunks are loaded from at runtime, when it differs from
    /// the server root.
    pub chunk_base_path: Option<String>,
}

/// The static asset directory under the client root.
pub fn get_client_assets_path(client_root: &String) -> (r: String)
    ensures
        r@ == client_root@ + "/"@ + "_next/static/media"@,
{
    join_path(client_root, "_next/static/media")
}

/// The chunking layout for one mode: the dev server serves from the client
/// root with hot reload; development keeps hot reload but nests output
/// under `_next` and loads chunks from there; a production build nests
/// output the same way without hot reload.
pub fn get_client_chunking_context(mode: NextMode, client_root: &String) -> (r: ChunkingLayout)
    ensures
        match mode {
            NextMode::DevServer => r.output_root@ == client_root@,
            NextMode::Development => r.output_root@ == client_root@ + "/"@ + "_next"@,
            NextMode::Build => r.output_root@ == client_root@ + "/"@ + "_next"@,
        },
        r.chunk_root@ == client_root@ + "/"@ + "_next/static/chunks"@,
        r.asset_root@ == client_root@ + "/"@ + "_next/static/media"@,
        r.hot_module_replacement == !(mode is Build),
        match mode {
            NextMode::DevServer => r.chunk_base_path is None,
            NextMode::Development => r.chunk_base_path matches Some(p) && p@ == "_next/"@,
            NextMode::Build => r.chunk_base_path matches Some(p) && p@ == "_next/"@,
        },
{
    let output_root = match mode {
        NextMode::DevServer => client_root.clone(),
        NextMode::Development => join_path(client_root, "_next"),
        NextMode::Build => join_path(client_root, "_next"),
    };
    let chunk_base_path = match mode {
        NextMode::DevServer => None,
        NextMode::Development => Some(String::from_str("_next/")),
        NextMode::Build => Some(String::from_str("_next/")),
    };
    ChunkingLayout {
        output_root,
        chunk_root: join_path(client_root, "_next/static/chunks"),
        asset_root: get_client_assets_path(client_root),
        hot_module_replacement: !matches!(mode, NextMode::Build),
        chunk_base_path,
    }
}

/// The value a compile-time name is defined to.
pub enum DefineValue {
    Flag(bool),
    Text(String),
}

/// One compile-time definition: the dotted name and its value.
pub struct Define {
    pub name: String,
    pub value: DefineValue,
}

/// What the compile-time definitions of a client build must be: the fixed
/// switches, the node environment for the mode, and the output directory
/// when it is known.
pub open spec fn defines_correct(
    defines: Seq<Define>,
    mode: NextMode,
    dist_root_path: Option<Seq<char>>,
) -> bool {
    &&& defines.len() == (if dist_root_path is Some {
        6int
    } else {
        5int
    })
    &&& defines[0].name@ == "process.turbopack"@ && defines[0].value == DefineValue::Flag(true)
    &&& defines[1].name@ == "process.env.NODE_ENV"@
    &&& (defines[1].value matches DefineValue::Text(v) && (if mode is Build {
        v@ == "production"@
    } else {
        v@ == "development"@
    }))
    &&& defines[2].name@ == "process.env.__NEXT_CLIENT_ROUTER_FILTER_ENABLED"@ && defines[2].value
        == DefineValue::Flag(false)
    &&& defines[3].name@ == "process.env.__NEXT_HAS_REWRITES"@ && defines[3].value
        == DefineValue::Flag(true)
    &&& defines[4].name@ == "process.env.__NEXT_I18N_SUPPORT"@ && defines[4].value
        == DefineValue::Flag(false)
    &&& dist_root_path matches Some(d) ==> (defines[5].name@ == "process.env.__NEXT_DIST_DIR"@
        && (defines[5].value matches DefineValue::Text(v) && v@ == d))
}

/// The compile-time definitions of a client build.
pub fn get_defines(mode: NextMode, dist_root_path: Option<String>) -> (r: Vec<Define>)
    ensures
        defines_correct(
            r@,
            mode,
            match dist_root_path {
                Some(d) => Some(d@),
                None => None,
            },
        ),
{
    let mut defines: Vec<Define> = Vec::new();
    defines.push(
        Define {
            name: String::from_str("process.turbopack"),
            value: DefineValue::Flag(true),
        },
    );
    defines.push(
        Define {
            name: String::from_str("process.env.NODE_ENV"),
            value: DefineValue::Text(String::from_str(mode.node_env())),
        },
    );
    defines.push(
        Define {
            name: String::from_str("process.env.__NEXT_CLIENT_ROUTER_FILTER_ENABLED"),
            value: DefineValue::Flag(false),
        },
    );
    defines.push(
        Define {
            name: String::from_str("process.env.__NEXT_HAS_REWRITES"),
            value: DefineValue::Flag(true),
        },
    );
    defines.push(
        Define {
            name: String::from_str("process.env.__NEXT_I18N_SUPPORT"),
            value: DefineValue::Flag(false),
        },
    );
    match dist_root_path {
        Some(d) => {
            defines.push(
                Define {
                    name: String::from_str("process.env.__NEXT_DIST_DIR"),
                    value: DefineValue::Text(d),
                },
            );
        },
        None => {},
    }
    defines
}

/// One runtime entry injected into the client bundle.
pub enum RuntimeEntry {
    /// The process-environment asset.
    ProcessEnv,
    /// The hot-reload refresh runtime, resolved to `request`.
    Refresh { request: String },
    /// A bootstrap module requested by path.
    Bootstrap { request: String },
}

/// The bootstrap module a mode and context call for, if any.
pub open spec fn spec_bootstrap_request(ty: ClientContextType, mode: NextMode) -> Option<
    Seq<char>,
> {
    if mode is Development && ty is App {
        Some("next/dist/client/app-next-dev-turbopack.js"@)
    } else if mode is Build && ty is App {
        Some("./build/client/app-bootstrap.ts"@)
    } else if mode is Build && ty is Pages {
        Some("./build/client/bootstrap.ts"@)
    } else {
        None
    }
}

/// What the injected runtime entries must be, in order: the
/// process-environment asset for the pages and app contexts; then, where a
/// dev mode resolved the hot-reload refresh runtime, that runtime — it
/// must come before any bootstrap, whose code needs its globals; then the
/// bootstrap the mode and context call for.
pub open spec fn runtime_entries_correct(
    entries: Seq<RuntimeEntry>,
    ty: ClientContextType,
    mode: NextMode,
    react_refresh: Option<String>,
) -> bool {
    let n_env: int = if ty is App || ty is Pages {
        1
    } else {
        0
    };
    let n_refresh: int = if !(mode is Build) && react_refresh is Some {
        1
    } else {
        0
    };
    let boot = spec_bootstrap_request(ty, mode);
    let n_boot: int = if boot is Some {
        1
    } else {
        0
    };
    &&& entries.len() == n_env + n_refresh + n_boot
    &&& n_env == 1 ==> entries[0] is ProcessEnv
    &&& n_refresh == 1 ==> (entries[n_env] matches RuntimeEntry::Refresh { request } && request
        == react_refresh->0)
    &&& boot matches Some(q) ==> (entries[n_env + n_refresh] matches RuntimeEntry::Bootstrap {
        request,
    } && request@ == q)
}

/// The runtime entries of a client build, in injection order.
pub fn get_client_runtime_entries(
    ty: &ClientContextType,
    mode: NextMode,
    react_refresh: Option<String>,
) -> (r: Vec<RuntimeEntry>)
    ensures
        runtime_entries_correct(r@, *ty, mode, react_refresh),
{
    let mut entries: Vec<RuntimeEntry> = Vec::new();
    if matches!(ty, ClientContextType::App { .. }) || matches!(ty, ClientContextType::Pages { .. })
    {
        entries.push(RuntimeEntry::ProcessEnv);
    }
    if !matches!(mode, NextMode::Build) {
        match react_refresh {
            Some(request) => {
                entries.push(RuntimeEntry::Refresh { request });
            },
            None => {},
        }
    }
    match mode {
        NextMode::DevServer => {},
        NextMode::Development => {
            if matches!(ty, ClientContextType::App { .. }) {
                entries.push(
                    RuntimeEntry::Bootstrap {
                        request: String::from_str("next/dist/client/app-next-dev-turbopack.js"),
                    },
                );
            }
        },
        NextMode::Build => {
            if matches!(ty, ClientContextType::App { .. }) {
                entries.push(
                    RuntimeEntry::Bootstrap {
                        request: String::from_str("./build/client/app-bootstrap.ts"),
                    },
                );
            } else if matches!(ty, ClientContextType::Pages { .. }) {
                entries.push(
                    RuntimeEntry::Bootstrap {
                        request: String::from_str("./build/client/bootstrap.ts"),
                    },
                );
            }
        },
    }
    entries
}

/// The browser execution environment a client build targets.
pub struct BrowserEnvironment {
    pub dom: bool,
    pub web_worker: bool,
    pub service_worker: bool,
    pub browserslist_query: String,
}

/// The compile-time information of a client build: the browser environment
/// and the definitions.
pub struct CompileTimeInfo {
    pub environment: BrowserEnvironment,
    pub defines: Vec<Define>,
}

/// The compile-time information for a client build: a DOM browser
/// environment — no workers — over the given browser support query, with
/// the mode's definitions and the output directory defined.
pub fn get_client_compile_time_info(
    mode: NextMode,
    browserslist_query: String,
    dist_root_path: String,
) -> (r: CompileTimeInfo)
    ensures
        r.environment.dom,
        !r.environment.web_worker,
        !r.environment.service_worker,
        r.environment.browserslist_query == browserslist_query,
        defines_correct(r.defines@, mode, Some(dist_root_path@)),
{
    CompileTimeInfo {
        environment: BrowserEnvironment {
            dom: true,
            web_worker: false,
            service_worker: false,
            browserslist_query,
        },
        defines: get_defines(mode, Some(dist_root_path)),
    }
}

} // verus!
