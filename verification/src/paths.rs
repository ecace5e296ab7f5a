//! Paths, and the directories in which the daemon keeps its files.

use directories::ProjectDirs;
use std::path::PathBuf;
use vstd::prelude::*;

verus! {

/// A path of the operating system. Nothing is known of what is inside.
#[verifier::external_type_specification]
#[verifier::external_body]
pub struct ExPathBuf(PathBuf);

/// The directories that belong to one application. Nothing is known of what is
/// inside.
#[verifier::external_type_specification]
#[verifier::external_body]
pub struct ExProjectDirs(ProjectDirs);

/// The text of a path, as `Path::to_str` gives it; `None` where the path is not
/// valid Unicode.
pub uninterp spec fn path_text(path: PathBuf) -> Option<Seq<char>>;

/// The path that `PathBuf::push` makes of `path` and the text of another path.
pub uninterp spec fn pushed_path(path: PathBuf, segment: Seq<char>) -> PathBuf;

/// Whether `outcome` is what `ProjectDirs::from` returns for these names in some
/// environment, be it directories or `None`.
pub uninterp spec fn is_project_dirs_outcome(
    qualifier: Seq<char>,
    organization: Seq<char>,
    application: Seq<char>,
    outcome: Option<ProjectDirs>,
) -> bool;

/// The directory that `ProjectDirs::cache_dir` returns.
pub uninterp spec fn project_cache_dir(dirs: ProjectDirs) -> PathBuf;

/// The directory that `ProjectDirs::config_dir` returns.
pub uninterp spec fn project_config_dir(dirs: ProjectDirs) -> PathBuf;

/// `PathBuf::clone`: the copy is the same path.
pub assume_specification[ <PathBuf as Clone>::clone ](path: &PathBuf) -> (res: PathBuf)
    ensures
        res == *path,
;

/// `Path::to_str`: the text of a path that is valid Unicode, `None` for any other.
#[verifier::external_body]
pub(crate) fn to_str(path: &PathBuf) -> (res: Option<&str>)
    ensures
        res is Some == path_text(*path) is Some,
        res matches Some(text) ==> text@ == path_text(*path)->0,
{
    path.to_str()
}

/// `PathBuf::from` for a `String`: a path with that text.
#[verifier::external_body]
pub(crate) fn from_text(text: String) -> (path: PathBuf)
    ensures
        path_text(path) == Some(text@),
{
    PathBuf::from(text)
}

/// `PathBuf::push`: extends `path` by another path, given as text. What the result
/// is depends on the two alone; how the operating system joins them is not stated.
#[verifier::external_body]
pub(crate) fn push(path: &mut PathBuf, segment: &str)
    ensures
        *final(path) == pushed_path(*old(path), segment@),
{
    path.push(segment)
}

/// `ProjectDirs::from`: the directories of an application, `None` where the user's
/// home directory cannot be found. Which directories they are, and whether there
/// are any, rests on the environment and is not stated.
#[verifier::external_body]
pub(crate) fn project_dirs(
    qualifier: &str,
    organization: &str,
    application: &str,
) -> (res: Option<ProjectDirs>)
    ensures
        is_project_dirs_outcome(qualifier@, organization@, application@, res),
{
    ProjectDirs::from(qualifier, organization, application)
}

/// `ProjectDirs::cache_dir`: one of the directories that `dirs` holds.
#[verifier::external_body]
pub(crate) fn cache_dir(dirs: &ProjectDirs) -> (dir: PathBuf)
    ensures
        dir == project_cache_dir(*dirs),
{
    dirs.cache_dir().to_path_buf()
}

/// `ProjectDirs::config_dir`: one of the directories that `dirs` holds.
#[verifier::external_body]
pub(crate) fn config_dir(dirs: &ProjectDirs) -> (dir: PathBuf)
    ensures
        dir == project_config_dir(*dirs),
{
    dirs.config_dir().to_path_buf()
}

/// Whether looking up the daemon's directories can come to `outcome`.
pub open spec fn is_daemon_dirs_outcome(outcome: Option<ProjectDirs>) -> bool {
    is_project_dirs_outcome(""@, ""@, "spotifyd"@, outcome)
}

/// The directories of the daemon, where the environment provides them: what looking
/// them up came to, handed on unchanged.
pub fn daemon_dirs() -> (res: Option<ProjectDirs>)
    ensures
        is_daemon_dirs_outcome(res),
        is_project_dirs_outcome(""@, ""@, "spotifyd"@, res),
{
    project_dirs("", "", "spotifyd")
}

/// The directory in which the daemon keeps its cache, given what looking up its
/// directories came to.
pub open spec fn cache_dir_of(dirs: Option<ProjectDirs>) -> Option<PathBuf> {
    match dirs {
        Some(dirs) => Some(project_cache_dir(dirs)),
        None => None,
    }
}

/// The directory in which the daemon keeps its cache, given what looking up its
/// directories came to.
pub fn cache_dir_in(dirs: Option<ProjectDirs>) -> (res: Option<PathBuf>)
    ensures
        res == cache_dir_of(dirs),
        dirs is None ==> res is None,
        dirs matches Some(dirs) ==> res == Some(project_cache_dir(dirs)),
{
    match dirs {
        Some(dirs) => Some(cache_dir(&dirs)),
        None => None,
    }
}

/// The daemon's directories are those of an application called `spotifyd`, and its cache
/// lies in the cache directory among them.
pub proof fn law_daemon_dirs_are_those_of_spotifyd(dirs: Option<ProjectDirs>)
    ensures
        is_daemon_dirs_outcome(dirs) <==> is_project_dirs_outcome(""@, ""@, "spotifyd"@, dirs),
        dirs is None ==> cache_dir_of(dirs) is None,
        dirs matches Some(found) ==> cache_dir_of(dirs) == Some(project_cache_dir(found)),
{
}

} // verus!
