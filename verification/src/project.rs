//! The project-directory deriver: a project identifier is normalized and
//! appended to each of the override-then-fallback base directories,
//! yielding one immutable bundle of per-project locations.
//!
//! The runtime directory is optional throughout: when the runtime
//! override is absent or not absolute, the bundle simply carries no
//! runtime location instead of failing, the same policy as the base
//! resolver's runtime query.

use vstd::prelude::*;
use crate::base::{
    EnvSnapshot, EnvView, cache_dir_spec, config_dir_spec, data_dir_spec, resolve_override,
    runtime_dir_spec,
};
use crate::names::{
    normalize_qualified_name, normalized_spec, qualified_normalized_spec,
    trim_and_replace_spaces_with_hyphens_then_lowercase,
};
use crate::paths::{
    has_final_segment, is_absolute_spec, join_path, join_spec, lemma_join_has_final_segment,
    path_is_absolute,
};

verus! {

/// The per-project storage locations derived from one normalized name.
#[derive(Debug, Clone)]
pub struct ProjectDirectories {
    project_name: String,
    project_cache_dir: String,
    project_config_dir: String,
    project_data_dir: String,
    project_data_local_dir: String,
    project_runtime_dir: Option<String>,
}

/// The bundle, seen abstractly: each path as its character sequence.
pub ghost struct ProjectDirectoriesView {
    pub project_name: Seq<char>,
    pub cache_dir: Seq<char>,
    pub config_dir: Seq<char>,
    pub data_dir: Seq<char>,
    pub data_local_dir: Seq<char>,
    pub runtime_dir: Option<Seq<char>>,
}

impl View for ProjectDirectories {
    type V = ProjectDirectoriesView;

    closed spec fn view(&self) -> ProjectDirectoriesView {
        ProjectDirectoriesView {
            project_name: self.project_name@,
            cache_dir: self.project_cache_dir@,
            config_dir: self.project_config_dir@,
            data_dir: self.project_data_dir@,
            data_local_dir: self.project_data_local_dir@,
            runtime_dir: self.project_runtime_dir.deep_view(),
        }
    }
}

/// What derivation yields: the name appended to each resolved base
/// directory, with the local data directory equal to the data directory
/// and the runtime directory present only under an absolute override.
pub open spec fn project_dirs_spec(e: EnvView, name: Seq<char>) -> ProjectDirectoriesView {
    ProjectDirectoriesView {
        project_name: name,
        cache_dir: join_spec(cache_dir_spec(e), name),
        config_dir: join_spec(config_dir_spec(e), name),
        data_dir: join_spec(data_dir_spec(e), name),
        data_local_dir: join_spec(data_dir_spec(e), name),
        runtime_dir: match runtime_dir_spec(e) {
            Some(v) => Some(join_spec(v, name)),
            None => None,
        },
    }
}

impl ProjectDirectories {
    /// The primitive constructor: the given value is used as the project
    /// name exactly as it stands.
    pub fn from_unprocessed_string(env: &EnvSnapshot, value: &str) -> (r: ProjectDirectories)
        ensures
            r@ == project_dirs_spec(env@, value@),
    {
        let cache_base = resolve_override(
            &env.xdg_cache_home,
            join_path(env.home.as_str(), ".cache"),
        );
        let config_base = resolve_override(
            &env.xdg_config_home,
            join_path(env.home.as_str(), ".config"),
        );
        let data_base = resolve_override(
            &env.xdg_data_home,
            join_path(env.home.as_str(), ".local/share"),
        );
        let project_data_dir = join_path(data_base.as_str(), value);
        let project_data_local_dir = project_data_dir.clone();
        let project_runtime_dir = match &env.xdg_runtime_dir {
            Some(v) => {
                if path_is_absolute(v.as_str()) {
                    Some(join_path(v.as_str(), value))
                } else {
                    None
                }
            },
            None => None,
        };
        ProjectDirectories {
            project_name: value.to_owned(),
            project_cache_dir: join_path(cache_base.as_str(), value),
            project_config_dir: join_path(config_base.as_str(), value),
            project_data_dir,
            project_data_local_dir,
            project_runtime_dir,
        }
    }

    /// Derives the bundle from a free-form display name, normalizing it
    /// first.
    pub fn from_project_name(env: &EnvSnapshot, project_name: &str) -> (r: ProjectDirectories)
        ensures
            r@ == project_dirs_spec(env@, normalized_spec(project_name@)),
    {
        let name = trim_and_replace_spaces_with_hyphens_then_lowercase(project_name);
        ProjectDirectories::from_unprocessed_string(env, name.as_str())
    }

    /// Derives the bundle from a reverse-DNS-qualified name, keeping only
    /// the final segment, lowercased and trimmed.
    pub fn from_qualified_project_name(env: &EnvSnapshot, qualified_project_name: &str) -> (r:
        ProjectDirectories)
        ensures
            r@ == project_dirs_spec(env@, qualified_normalized_spec(qualified_project_name@)),
    {
        let name = normalize_qualified_name(qualified_project_name);
        ProjectDirectories::from_unprocessed_string(env, name.as_str())
    }

    /// The normalized project name the bundle was derived from.
    pub fn project_name(&self) -> (r: &str)
        ensures
            r@ == self@.project_name,
    {
        self.project_name.as_str()
    }

    /// The per-project cache directory.
    pub fn project_cache_dir(&self) -> (r: &str)
        ensures
            r@ == self@.cache_dir,
    {
        self.project_cache_dir.as_str()
    }

    /// The per-project config directory.
    pub fn project_config_dir(&self) -> (r: &str)
        ensures
            r@ == self@.config_dir,
    {
        self.project_config_dir.as_str()
    }

    /// The per-project data directory.
    pub fn project_data_dir(&self) -> (r: &str)
        ensures
            r@ == self@.data_dir,
    {
        self.project_data_dir.as_str()
    }

    /// The per-project local data directory; on this platform it equals
    /// the data directory.
    pub fn project_data_local_dir(&self) -> (r: &str)
        ensures
            r@ == self@.data_local_dir,
    {
        self.project_data_local_dir.as_str()
    }

    /// The per-project runtime directory, when the platform offers one.
    pub fn project_runtime_dir(&self) -> (r: Option<&str>)
        ensures
            match r {
                Some(p) => self@.runtime_dir == Some(p@),
                None => self@.runtime_dir is None,
            },
    {
        match &self.project_runtime_dir {
            Some(p) => Some(p.as_str()),
            None => None,
        }
    }
}

/// Law: each directory of a bundle ends with the bundle's project name
/// as its final path segment.
pub proof fn lemma_bundle_name_is_final_segment(e: EnvView, name: Seq<char>)
    ensures
        project_dirs_spec(e, name).project_name == name,
        has_final_segment(project_dirs_spec(e, name).cache_dir, name),
        has_final_segment(project_dirs_spec(e, name).config_dir, name),
        has_final_segment(project_dirs_spec(e, name).data_dir, name),
        has_final_segment(project_dirs_spec(e, name).data_local_dir, name),
        project_dirs_spec(e, name).runtime_dir matches Some(p) ==> has_final_segment(p, name),
{
    lemma_join_has_final_segment(cache_dir_spec(e), name);
    lemma_join_has_final_segment(config_dir_spec(e), name);
    lemma_join_has_final_segment(data_dir_spec(e), name);
    match runtime_dir_spec(e) {
        Some(v) => lemma_join_has_final_segment(v, name),
        None => (),
    }
}

/// Law: an absolute override value reaches the bundle verbatim, with
/// only the project name appended.
pub proof fn lemma_absolute_override_joined_in_bundle(e: EnvView, name: Seq<char>)
    ensures
        e.xdg_cache_home matches Some(v) ==> is_absolute_spec(v) ==> project_dirs_spec(
            e,
            name,
        ).cache_dir == join_spec(v, name),
        e.xdg_config_home matches Some(v) ==> is_absolute_spec(v) ==> project_dirs_spec(
            e,
            name,
        ).config_dir == join_spec(v, name),
        e.xdg_data_home matches Some(v) ==> is_absolute_spec(v) ==> project_dirs_spec(
            e,
            name,
        ).data_dir == join_spec(v, name),
        e.xdg_runtime_dir matches Some(v) ==> is_absolute_spec(v) ==> project_dirs_spec(
            e,
            name,
        ).runtime_dir == Some(join_spec(v, name)),
{
}

/// Law: derivation is a pure function of the snapshot and the name, so
/// two calls over the same environment return equal bundles.
pub proof fn lemma_derivation_idempotent(e1: EnvView, e2: EnvView, name: Seq<char>)
    requires
        e1 == e2,
    ensures
        project_dirs_spec(e1, name) == project_dirs_spec(e2, name),
{
}

} // verus!
