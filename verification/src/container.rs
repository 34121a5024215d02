//! The project container and its recomputable views.
//!
//! A container owns exactly one live configuration at a time. `update`
//! replaces it wholesale — readers observe the old configuration or the new
//! one, never a torn mix — and bumps the container's generation, which
//! stands for the engine invalidating every view derived from the
//! configuration. A view cache holds the last value the engine computed,
//! tagged with the generation it was computed at; a reader recomputes only
//! when the tag is stale.

use vstd::prelude::*;

use crate::error::SessionError;
use crate::options::ProjectOptions;
use crate::paths::is_path_prefix;
use crate::route::Entrypoints;

verus! {

/// The owner of the live configuration.
pub struct ProjectContainer {
    options: ProjectOptions,
    generation: u64,
    entrypoints: ViewCache<Entrypoints>,
    hmr_identifiers: ViewCache<Vec<String>>,
}

impl ProjectContainer {
    /// The configuration the container holds.
    pub closed spec fn options(&self) -> ProjectOptions {
        self.options
    }

    /// Bumped on every applied update; views cached at an older generation
    /// are stale.
    pub closed spec fn generation(&self) -> u64 {
        self.generation
    }

    /// The entrypoint set the engine last computed, tagged with its
    /// generation.
    pub closed spec fn entrypoints_view(&self) -> Option<(u64, Entrypoints)> {
        self.entrypoints.cached()
    }

    /// The hot-reload identifiers the engine last computed, tagged with
    /// their generation.
    pub closed spec fn hmr_identifiers_view(&self) -> Option<(u64, Vec<String>)> {
        self.hmr_identifiers.cached()
    }

    /// What the facade accepts: the project directory must live inside the
    /// root directory.
    pub open spec fn config_valid(options: &ProjectOptions) -> bool {
        is_path_prefix(options.project_path@, options.root_path@)
    }

    /// A view is only ever computed for a configuration the container has
    /// held: no cached tag runs ahead of the generation.
    pub open spec fn wf(&self) -> bool {
        &&& (self.entrypoints_view() matches Some(c) ==> c.0 <= self.generation())
        &&& (self.hmr_identifiers_view() matches Some(c) ==> c.0 <= self.generation())
    }

    /// A container never fails over configuration content; the content is
    /// opaque to this layer.
    pub fn create(options: ProjectOptions) -> (c: Self)
        ensures
            c.options() == options,
            c.generation() == 0,
            c.entrypoints_view() is None,
            c.hmr_identifiers_view() is None,
            c.wf(),
    {
        ProjectContainer {
            options,
            generation: 0,
            entrypoints: ViewCache::new(),
            hmr_identifiers: ViewCache::new(),
        }
    }

    /// What `update` does: on success the configuration is replaced
    /// wholesale and the generation is bumped; on rejection nothing
    /// changes.
    pub open spec fn updated(
        pre: Self,
        post: Self,
        new_options: ProjectOptions,
        ok: bool,
    ) -> bool {
        if ok {
            &&& post.options() == new_options
            &&& post.generation() == pre.generation() + 1
            &&& post.entrypoints_view() == pre.entrypoints_view()
            &&& post.hmr_identifiers_view() == pre.hmr_identifiers_view()
        } else {
            post == pre
        }
    }

    /// Atomically replace the configuration. A structurally invalid
    /// configuration — one whose project directory escapes the root — is
    /// rejected and nothing is applied.
    pub fn update(&mut self, new_options: ProjectOptions) -> (r: Result<(), SessionError>)
        requires
            old(self).wf(),
            old(self).generation() < u64::MAX,
        ensures
            final(self).wf(),
            r is Ok <==> Self::config_valid(&new_options),
            Self::updated(*old(self), *final(self), new_options, r is Ok),
            r matches Err(e) ==> e is ConfigurationRejected,
    {
        if crate::paths::starts_with_path(&new_options.project_path, &new_options.root_path) {
            self.options = new_options;
            self.generation = self.generation + 1;
            Ok(())
        } else {
            Err(SessionError::ConfigurationRejected)
        }
    }

    /// Read the live configuration.
    pub fn current_options(&self) -> (o: &ProjectOptions)
        ensures
            o == self.options(),
    {
        &self.options
    }

    /// Read the current generation.
    pub fn current_generation(&self) -> (g: u64)
        ensures
            g == self.generation(),
    {
        self.generation
    }

    /// Whether the entrypoint view must be recomputed before it is read:
    /// nothing is cached, or the configuration changed since it was.
    pub fn entrypoints_stale(&self) -> (r: bool)
        ensures
            r == !(self.entrypoints_view() matches Some(c) && c.0 == self.generation()),
    {
        !self.entrypoints.is_fresh(self.generation)
    }

    /// Store the entrypoint set the engine computed for the current
    /// configuration. Nothing else moves.
    pub fn store_entrypoints(&mut self, value: Entrypoints)
        requires
            old(self).wf(),
        ensures
            final(self).wf(),
            final(self).entrypoints_view() == Some((old(self).generation(), value)),
            final(self).options() == old(self).options(),
            final(self).generation() == old(self).generation(),
            final(self).hmr_identifiers_view() == old(self).hmr_identifiers_view(),
    {
        self.entrypoints.store(self.generation, value);
    }

    /// Read the entrypoint set, whole and as of the current configuration;
    /// nothing while the view is stale and the engine must recompute.
    pub fn entrypoints(&self) -> (r: Option<&Entrypoints>)
        ensures
            r is Some <==> (self.entrypoints_view() matches Some(c) && c.0 == self.generation()),
            r matches Some(v) ==> (self.entrypoints_view() matches Some(c) && *v == c.1),
    {
        if self.entrypoints.is_fresh(self.generation) {
            self.entrypoints.value()
        } else {
            None
        }
    }

    /// Whether the hot-reload identifier view must be recomputed before it
    /// is read.
    pub fn hmr_identifiers_stale(&self) -> (r: bool)
        ensures
            r == !(self.hmr_identifiers_view() matches Some(c) && c.0 == self.generation()),
    {
        !self.hmr_identifiers.is_fresh(self.generation)
    }

    /// Store the hot-reload identifiers the engine computed for the
    /// current configuration. Nothing else moves.
    pub fn store_hmr_identifiers(&mut self, value: Vec<String>)
        requires
            old(self).wf(),
        ensures
            final(self).wf(),
            final(self).hmr_identifiers_view() == Some((old(self).generation(), value)),
            final(self).options() == old(self).options(),
            final(self).generation() == old(self).generation(),
            final(self).entrypoints_view() == old(self).entrypoints_view(),
    {
        self.hmr_identifiers.store(self.generation, value);
    }

    /// Read the hot-reload identifiers, whole and as of the current
    /// configuration; nothing while the view is stale.
    pub fn hmr_identifiers(&self) -> (r: Option<&Vec<String>>)
        ensures
            r is Some <==> (self.hmr_identifiers_view() matches Some(c) && c.0
                == self.generation()),
            r matches Some(v) ==> (self.hmr_identifiers_view() matches Some(c) && *v == c.1),
    {
        if self.hmr_identifiers.is_fresh(self.generation) {
            self.hmr_identifiers.value()
        } else {
            None
        }
    }
}

/// No torn reads around an update: an applied update leaves every cached
/// view stale, so a reader never observes a pre-update entrypoint set or
/// identifier set as the current one; what it reads next was stored whole
/// at the new generation.
pub proof fn lemma_no_torn_view(
    pre: ProjectContainer,
    post: ProjectContainer,
    new_options: ProjectOptions,
)
    requires
        pre.wf(),
        ProjectContainer::updated(pre, post, new_options, true),
    ensures
        !(post.entrypoints_view() matches Some(c) && c.0 == post.generation()),
        !(post.hmr_identifiers_view() matches Some(c) && c.0 == post.generation()),
{
}

/// Atomicity of configuration replacement: around an update, a reader of
/// the container observes the whole old configuration or the whole new one,
/// never an interleaving.
pub proof fn lemma_update_atomic(
    pre: ProjectContainer,
    post: ProjectContainer,
    new_options: ProjectOptions,
    ok: bool,
)
    requires
        ProjectContainer::updated(pre, post, new_options, ok),
    ensures
        post.options() == new_options || post.options() == pre.options(),
{
}

/// A recomputable view: the value the engine last computed for it, tagged
/// with the container generation it was computed at. Reading it triggers
/// recomputation only if the configuration changed since the last read.
pub struct ViewCache<T> {
    cached: Option<(u64, T)>,
}

impl<T> ViewCache<T> {
    /// The cached value and its generation tag, if any.
    pub closed spec fn cached(&self) -> Option<(u64, T)> {
        self.cached
    }

    /// An empty cache: the first read always recomputes.
    pub fn new() -> (v: Self)
        ensures
            v.cached() is None,
    {
        ViewCache { cached: None }
    }

    /// Whether the cached value was computed at `generation`; a stale or
    /// missing value means the reader must recompute and store.
    pub fn is_fresh(&self, generation: u64) -> (r: bool)
        ensures
            r == (self.cached() matches Some(c) && c.0 == generation),
    {
        match &self.cached {
            Some(c) => c.0 == generation,
            None => false,
        }
    }

    /// Store the value the engine computed at `generation`.
    pub fn store(&mut self, generation: u64, value: T)
        ensures
            final(self).cached() == Some((generation, value)),
    {
        self.cached = Some((generation, value));
    }

    /// Read the cached value, whole: exactly what was stored at one single
    /// generation, never a mix.
    pub fn value(&self) -> (r: Option<&T>)
        ensures
            r is Some <==> self.cached() is Some,
            r matches Some(v) ==> self.cached() matches Some(c) && *v == c.1,
    {
        match &self.cached {
            Some(c) => Some(&c.1),
            None => None,
        }
    }
}

} // verus!
