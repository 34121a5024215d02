//! Project configuration options.
//!
//! A configuration is an immutable snapshot: it is replaced wholesale on
//! update and never partially mutated. The host hands options in through the
//! flat `NapiProjectOptions` shape; the container works on `ProjectOptions`,
//! where the environment is a list of name/value pairs.

use vstd::prelude::*;

verus! {

/// One environment variable handed in by the host.
pub struct NapiEnvVar {
    pub name: String,
    pub value: String,
}

/// The flat option set the host supplies when creating or updating a
/// project.
pub struct NapiProjectOptions {
    /// A root path from which all files must be nested under. Trying to
    /// access a file outside this root will fail. Think of this as a chroot.
    pub root_path: String,
    /// A path inside the root_path which contains the app/pages directories.
    pub project_path: String,
    /// The output directory, when it is known at initialization; it is
    /// configured earlier than the serialized framework configuration is
    /// read, so it travels as a separate option.
    pub dist_dir: Option<String>,
    /// Whether to watch the filesystem for file changes.
    pub watch: bool,
    /// The serialized framework configuration.
    pub next_config: String,
    /// The serialized type-checking configuration.
    pub js_config: String,
    /// A map of environment variables to use when compiling code.
    pub env: Vec<NapiEnvVar>,
    /// The address of the dev server.
    pub server_addr: String,
}

/// The configuration snapshot a project container holds.
pub struct ProjectOptions {
    pub root_path: String,
    pub project_path: String,
    pub watch: bool,
    pub next_config: String,
    pub js_config: String,
    pub env: Vec<(String, String)>,
    pub server_addr: String,
}

/// An environment variable as a plain name/value pair.
pub open spec fn env_pair(e: NapiEnvVar) -> (String, String) {
    (e.name, e.value)
}

/// Turn the host's environment variable list into plain pairs, in order.
pub fn env_pairs(env: Vec<NapiEnvVar>) -> (pairs: Vec<(String, String)>)
    ensures
        pairs@ == env@.map_values(|e: NapiEnvVar| env_pair(e)),
{
    let ghost all = env@;
    let ghost f = |e: NapiEnvVar| env_pair(e);
    let mut rest = env;
    let mut pairs: Vec<(String, String)> = Vec::new();
    while rest.len() > 0
        invariant
            rest@ == all.skip(all.len() - rest@.len()),
            rest@.len() <= all.len(),
            pairs@ == all.take(all.len() - rest@.len()).map_values(f),
            f == (|e: NapiEnvVar| env_pair(e)),
        decreases rest@.len(),
    {
        let ghost i = all.len() - rest@.len();
        let e = rest.remove(0);
        proof {
            assert(e == all[i]);
            assert(rest@ =~= all.skip(i + 1));
            assert(all.take(i + 1).map_values(f) =~= all.take(i as int).map_values(f).push(
                f(all[i]),
            ));
        }
        pairs.push((e.name, e.value));
    }
    proof {
        assert(all.take(all.len() as int) =~= all);
    }
    pairs
}

impl ProjectOptions {
    /// Build the container's configuration snapshot from the host's flat
    /// option set. Every field is carried over unchanged; the environment
    /// list becomes plain pairs. The output directory option serves the
    /// host's tracing setup alone and is not part of the snapshot.
    pub fn from_napi(val: NapiProjectOptions) -> (r: ProjectOptions)
        ensures
            r.root_path == val.root_path,
            r.project_path == val.project_path,
            r.watch == val.watch,
            r.next_config == val.next_config,
            r.js_config == val.js_config,
            r.env@ == val.env@.map_values(|e: NapiEnvVar| env_pair(e)),
            r.server_addr == val.server_addr,
    {
        let NapiProjectOptions {
            root_path,
            project_path,
            dist_dir: _,
            watch,
            next_config,
            js_config,
            env,
            server_addr,
        } = val;
        ProjectOptions {
            root_path,
            project_path,
            watch,
            next_config,
            js_config,
            env: env_pairs(env),
            server_addr,
        }
    }
}

} // verus!
