//! Startup decisions of the host process.
//!
//! Before the server runs, the host reads its tracing request, decides
//! where the internal output directory lies, and picks how much engine
//! statistics to keep. The environment reads and the tracing setup are the
//! host's; the decisions over the values read are taken here.

use vstd::prelude::*;

use crate::paths::join_path;

verus! {

/// Which tracing target preset a tracing request names; anything else is a
/// filter to parse as it stands.
pub enum TracePreset {
    Overview,
    Next,
    Turbopack,
    TurboTasks,
    Custom { filter: String },
}

/// Classify the tracing request read from the environment.
pub fn parse_trace_preset(trace: String) -> (r: TracePreset)
    ensures
        trace@ == "overview"@ ==> r is Overview,
        trace@ == "next"@ ==> r is Next,
        trace@ == "turbopack"@ ==> r is Turbopack,
        trace@ == "turbo-tasks"@ ==> r is TurboTasks,
        r matches TracePreset::Custom { filter } ==> filter == trace && trace@ != "overview"@
            && trace@ != "next"@ && trace@ != "turbopack"@ && trace@ != "turbo-tasks"@,
    {
    proof {
        reveal_strlit("overview");
        reveal_strlit("next");
        reveal_strlit("turbopack");
        reveal_strlit("turbo-tasks");
        assert("overview"@.len() == 8);
        assert("next"@.len() == 4);
        assert("turbopack"@.len() == 9);
        assert("turbo-tasks"@.len() == 11);
    }
    if trace == String::from_str("overview") {
        TracePreset::Overview
    } else if trace == String::from_str("next") {
        TracePreset::Next
    } else if trace == String::from_str("turbopack") {
        TracePreset::Turbopack
    } else if trace == String::from_str("turbo-tasks") {
        TracePreset::TurboTasks
    } else {
        TracePreset::Custom { filter: trace }
    }
}

/// The internal output directory: the configured one under the project
/// path, or `.next` by default.
pub fn internal_dir(project_path: &String, dist_dir: &Option<String>) -> (r: String)
    ensures
        match dist_dir {
            Some(d) => r@ == project_path@ + "/"@ + d@,
            None => r@ == project_path@ + "/"@ + ".next"@,
        },
{
    match dist_dir {
        Some(d) => join_path(project_path, d.as_str()),
        None => join_path(project_path, ".next"),
    }
}

/// How much engine statistics the host keeps.
#[derive(Clone, Copy, Debug, PartialEq, Eq, Structural)]
pub enum StatsType {
    /// Everything, for detailed reporting.
    Full,
    /// Only what the progress reporting needs.
    Essential,
}

/// The statistics level the command-line option asks for.
pub fn stats_type_for(full_stats: bool) -> (r: StatsType)
    ensures
        r == (if full_stats {
            StatsType::Full
        } else {
            StatsType::Essential
        }),
{
    if full_stats {
        StatsType::Full
    } else {
        StatsType::Essential
    }
}

} // verus!
