//! The base-directory resolver: for each named location, an override
//! environment variable is honoured when it holds an absolute path, and a
//! platform default takes over otherwise. The user folders come from an
//! external helper whose reply is parsed here.

use vstd::prelude::*;
use crate::paths::{
    is_absolute_spec, join_spec, join_path, path_is_absolute, pop_spec, pop_path,
};

verus! {

/// The environment values that resolution reads: the home directory and
/// the raw override variables, captured as one snapshot. Every query is a
/// pure function of such a snapshot, so a caller that re-reads the live
/// environment between calls sees exactly its changes and nothing else.
pub struct EnvSnapshot {
    pub home: String,
    pub xdg_cache_home: Option<String>,
    pub xdg_config_home: Option<String>,
    pub xdg_data_home: Option<String>,
    pub xdg_bin_home: Option<String>,
    pub xdg_runtime_dir: Option<String>,
}

/// The snapshot, seen abstractly: each value as its character sequence.
pub ghost struct EnvView {
    pub home: Seq<char>,
    pub xdg_cache_home: Option<Seq<char>>,
    pub xdg_config_home: Option<Seq<char>>,
    pub xdg_data_home: Option<Seq<char>>,
    pub xdg_bin_home: Option<Seq<char>>,
    pub xdg_runtime_dir: Option<Seq<char>>,
}

impl View for EnvSnapshot {
    type V = EnvView;

    open spec fn view(&self) -> EnvView {
        EnvView {
            home: self.home@,
            xdg_cache_home: self.xdg_cache_home.deep_view(),
            xdg_config_home: self.xdg_config_home.deep_view(),
            xdg_data_home: self.xdg_data_home.deep_view(),
            xdg_bin_home: self.xdg_bin_home.deep_view(),
            xdg_runtime_dir: self.xdg_runtime_dir.deep_view(),
        }
    }
}

/// The one fatal error the resolver itself reports: the user-folder
/// helper produced something other than one newline-terminated path.
#[derive(Clone, Copy, Debug, PartialEq, Eq, Structural)]
pub enum DirsError {
    MalformedHelperOutput,
}

/// Override-then-fallback: an absolute override value wins, any other
/// (missing, empty or relative) falls back to the default.
pub open spec fn resolve_spec(candidate: Option<Seq<char>>, fallback: Seq<char>) -> Seq<char> {
    match candidate {
        Some(v) => if is_absolute_spec(v) {
            v
        } else {
            fallback
        },
        None => fallback,
    }
}

/// Picks the override value when it is an absolute path, the fallback
/// otherwise.
pub fn resolve_override(candidate: &Option<String>, fallback: String) -> (r: String)
    ensures
        r@ == resolve_spec(candidate.deep_view(), fallback@),
{
    match candidate {
        Some(v) => {
            if path_is_absolute(v.as_str()) {
                v.clone()
            } else {
                fallback
            }
        },
        None => fallback,
    }
}

pub open spec fn home_dir_spec(e: EnvView) -> Seq<char> {
    e.home
}

pub open spec fn cache_dir_spec(e: EnvView) -> Seq<char> {
    resolve_spec(e.xdg_cache_home, join_spec(e.home, ".cache"@))
}

pub open spec fn config_dir_spec(e: EnvView) -> Seq<char> {
    resolve_spec(e.xdg_config_home, join_spec(e.home, ".config"@))
}

pub open spec fn data_dir_spec(e: EnvView) -> Seq<char> {
    resolve_spec(e.xdg_data_home, join_spec(e.home, ".local/share"@))
}

pub open spec fn executable_dir_spec(e: EnvView) -> Seq<char> {
    resolve_spec(e.xdg_bin_home, join_spec(pop_spec(data_dir_spec(e)), "bin"@))
}

pub open spec fn runtime_dir_spec(e: EnvView) -> Option<Seq<char>> {
    match e.xdg_runtime_dir {
        Some(v) => if is_absolute_spec(v) {
            Some(v)
        } else {
            None
        },
        None => None,
    }
}

pub open spec fn font_dir_spec(e: EnvView) -> Seq<char> {
    join_spec(data_dir_spec(e), "fonts"@)
}

/// The helper's reply must be one newline-terminated path; the newline is
/// stripped, anything else is malformed.
pub open spec fn parse_helper_spec(out: Seq<char>) -> Option<Seq<char>> {
    if out.len() > 0 && out.last() == '\n' {
        Some(out.drop_last())
    } else {
        None
    }
}

/// Strips the trailing newline from the helper's reply, or reports the
/// reply as malformed.
pub fn parse_helper_output(out: &str) -> (r: Result<String, DirsError>)
    ensures
        match r {
            Ok(p) => parse_helper_spec(out@) == Some(p@),
            Err(e) => parse_helper_spec(out@) is None && e == DirsError::MalformedHelperOutput,
        },
{
    let n = out.unicode_len();
    if n > 0 && out.get_char(n - 1) == '\n' {
        proof {
            assert(out@.subrange(0, n - 1) =~= out@.drop_last());
        }
        Ok(out.substring_char(0, n - 1).to_owned())
    } else {
        Err(DirsError::MalformedHelperOutput)
    }
}

/// The user folders that the external helper resolves, each keyed by a
/// fixed symbolic name.
#[derive(Clone, Copy, Debug, PartialEq, Eq, Structural)]
pub enum UserFolder {
    Audio,
    Desktop,
    Document,
    Download,
    Picture,
    Public,
    Template,
    Video,
}

pub open spec fn user_folder_key_spec(f: UserFolder) -> Seq<char> {
    match f {
        UserFolder::Audio => "MUSIC"@,
        UserFolder::Desktop => "DESKTOP"@,
        UserFolder::Document => "DOCUMENTS"@,
        UserFolder::Download => "DOWNLOAD"@,
        UserFolder::Picture => "PICTURES"@,
        UserFolder::Public => "PUBLICSHARE"@,
        UserFolder::Template => "TEMPLATES"@,
        UserFolder::Video => "VIDEOS"@,
    }
}

/// The symbolic argument the helper expects for the given user folder.
pub fn user_folder_key(f: &UserFolder) -> (r: &'static str)
    ensures
        r@ == user_folder_key_spec(*f),
{
    match f {
        UserFolder::Audio => "MUSIC",
        UserFolder::Desktop => "DESKTOP",
        UserFolder::Document => "DOCUMENTS",
        UserFolder::Download => "DOWNLOAD",
        UserFolder::Picture => "PICTURES",
        UserFolder::Public => "PUBLICSHARE",
        UserFolder::Template => "TEMPLATES",
        UserFolder::Video => "VIDEOS",
    }
}

/// The fixed set of base locations. Each query resolves one of them from
/// an environment snapshot or, for the user folders, from the helper's
/// reply for the matching symbolic key.
#[derive(Debug, Clone)]
pub struct BaseDirectories;

impl BaseDirectories {
    /// The user's home directory, as the snapshot gives it.
    pub fn home_dir(env: &EnvSnapshot) -> (r: String)
        ensures
            r@ == home_dir_spec(env@),
    {
        env.home.clone()
    }

    /// The cache directory: the cache override, or `home/.cache`.
    pub fn cache_dir(env: &EnvSnapshot) -> (r: String)
        ensures
            r@ == cache_dir_spec(env@),
    {
        resolve_override(&env.xdg_cache_home, join_path(env.home.as_str(), ".cache"))
    }

    /// The config directory: the config override, or `home/.config`.
    pub fn config_dir(env: &EnvSnapshot) -> (r: String)
        ensures
            r@ == config_dir_spec(env@),
    {
        resolve_override(&env.xdg_config_home, join_path(env.home.as_str(), ".config"))
    }

    /// The roaming data directory: on this platform, the data directory.
    pub fn data_roaming_dir(env: &EnvSnapshot) -> (r: String)
        ensures
            r@ == data_dir_spec(env@),
    {
        resolve_override(&env.xdg_data_home, join_path(env.home.as_str(), ".local/share"))
    }

    /// The data directory: the data override, or `home/.local/share`.
    pub fn data_dir(env: &EnvSnapshot) -> (r: String)
        ensures
            r@ == data_dir_spec(env@),
    {
        resolve_override(&env.xdg_data_home, join_path(env.home.as_str(), ".local/share"))
    }

    /// The executable directory: the binary override, or the `bin`
    /// sibling of the data directory's parent.
    pub fn executable_dir(env: &EnvSnapshot) -> (r: Option<String>)
        ensures
            r matches Some(p) && p@ == executable_dir_spec(env@),
    {
        let data = Self::data_dir(env);
        let fallback = join_path(pop_path(data.as_str()).as_str(), "bin");
        Some(resolve_override(&env.xdg_bin_home, fallback))
    }

    /// The runtime directory: the runtime override when absolute, absent
    /// otherwise; this location has no fallback.
    pub fn runtime_dir(env: &EnvSnapshot) -> (r: Option<String>)
        ensures
            r.deep_view() == runtime_dir_spec(env@),
    {
        match &env.xdg_runtime_dir {
            Some(v) => {
                if path_is_absolute(v.as_str()) {
                    Some(v.clone())
                } else {
                    None
                }
            },
            None => None,
        }
    }

    /// The font directory: `fonts` under the data directory.
    pub fn font_dir(env: &EnvSnapshot) -> (r: Option<String>)
        ensures
            r matches Some(p) && p@ == font_dir_spec(env@),
    {
        let data = Self::data_dir(env);
        Some(join_path(data.as_str(), "fonts"))
    }

    /// The audio directory, from the helper's reply for `MUSIC`.
    pub fn audio_dir(helper_reply: &str) -> (r: Result<String, DirsError>)
        ensures
            match r {
                Ok(p) => parse_helper_spec(helper_reply@) == Some(p@),
                Err(e) => parse_helper_spec(helper_reply@) is None && e
                    == DirsError::MalformedHelperOutput,
            },
    {
        parse_helper_output(helper_reply)
    }

    /// The desktop directory, from the helper's reply for `DESKTOP`.
    pub fn desktop_dir(helper_reply: &str) -> (r: Result<String, DirsError>)
        ensures
            match r {
                Ok(p) => parse_helper_spec(helper_reply@) == Some(p@),
                Err(e) => parse_helper_spec(helper_reply@) is None && e
                    == DirsError::MalformedHelperOutput,
            },
    {
        parse_helper_output(helper_reply)
    }

    /// The document directory, from the helper's reply for `DOCUMENTS`.
    pub fn document_dir(helper_reply: &str) -> (r: Result<String, DirsError>)
        ensures
            match r {
                Ok(p) => parse_helper_spec(helper_reply@) == Some(p@),
                Err(e) => parse_helper_spec(helper_reply@) is None && e
                    == DirsError::MalformedHelperOutput,
            },
    {
        parse_helper_output(helper_reply)
    }

    /// The download directory, from the helper's reply for `DOWNLOAD`.
    pub fn download_dir(helper_reply: &str) -> (r: Result<String, DirsError>)
        ensures
            match r {
                Ok(p) => parse_helper_spec(helper_reply@) == Some(p@),
                Err(e) => parse_helper_spec(helper_reply@) is None && e
                    == DirsError::MalformedHelperOutput,
            },
    {
        parse_helper_output(helper_reply)
    }

    /// The picture directory, from the helper's reply for `PICTURES`.
    pub fn picture_dir(helper_reply: &str) -> (r: Result<String, DirsError>)
        ensures
            match r {
                Ok(p) => parse_helper_spec(helper_reply@) == Some(p@),
                Err(e) => parse_helper_spec(helper_reply@) is None && e
                    == DirsError::MalformedHelperOutput,
            },
    {
        parse_helper_output(helper_reply)
    }

    /// The public-share directory, from the helper's reply for
    /// `PUBLICSHARE`.
    pub fn public_dir(helper_reply: &str) -> (r: Result<String, DirsError>)
        ensures
            match r {
                Ok(p) => parse_helper_spec(helper_reply@) == Some(p@),
                Err(e) => parse_helper_spec(helper_reply@) is None && e
                    == DirsError::MalformedHelperOutput,
            },
    {
        parse_helper_output(helper_reply)
    }

    /// The template directory, from the helper's reply for `TEMPLATES`;
    /// present on this platform whenever the reply is well-formed.
    pub fn template_dir(helper_reply: &str) -> (r: Result<Option<String>, DirsError>)
        ensures
            match r {
                Ok(o) => o matches Some(p) && parse_helper_spec(helper_reply@) == Some(p@),
                Err(e) => parse_helper_spec(helper_reply@) is None && e
                    == DirsError::MalformedHelperOutput,
            },
    {
        match parse_helper_output(helper_reply) {
            Ok(p) => Ok(Some(p)),
            Err(e) => Err(e),
        }
    }

    /// The video directory, from the helper's reply for `VIDEOS`.
    pub fn video_dir(helper_reply: &str) -> (r: Result<String, DirsError>)
        ensures
            match r {
                Ok(p) => parse_helper_spec(helper_reply@) == Some(p@),
                Err(e) => parse_helper_spec(helper_reply@) is None && e
                    == DirsError::MalformedHelperOutput,
            },
    {
        parse_helper_output(helper_reply)
    }
}

/// Law: a relative override value never decides resolution; it falls
/// back exactly as if the variable were unset.
pub proof fn lemma_relative_override_falls_back(candidate: Seq<char>, fallback: Seq<char>)
    requires
        !is_absolute_spec(candidate),
    ensures
        resolve_spec(Some(candidate), fallback) == resolve_spec(None, fallback),
        resolve_spec(Some(candidate), fallback) == fallback,
{
}

/// Law: an absolute override value is returned verbatim by resolution.
pub proof fn lemma_absolute_override_verbatim(candidate: Seq<char>, fallback: Seq<char>)
    requires
        is_absolute_spec(candidate),
    ensures
        resolve_spec(Some(candidate), fallback) == candidate,
{
}

/// Law: every query is a pure function of the snapshot, so two calls
/// over the same environment return equal results.
pub proof fn lemma_queries_idempotent(e1: EnvView, e2: EnvView)
    requires
        e1 == e2,
    ensures
        home_dir_spec(e1) == home_dir_spec(e2),
        cache_dir_spec(e1) == cache_dir_spec(e2),
        config_dir_spec(e1) == config_dir_spec(e2),
        data_dir_spec(e1) == data_dir_spec(e2),
        executable_dir_spec(e1) == executable_dir_spec(e2),
        runtime_dir_spec(e1) == runtime_dir_spec(e2),
        font_dir_spec(e1) == font_dir_spec(e2),
{
}

} // verus!
