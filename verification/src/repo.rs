//! Finding the repository that a path belongs to, and paths relative to it.

use vstd::prelude::*;
use crate::text::{opt_text, res_text};
use crate::path::{ancestors, ancestors_of, is_inside, lies_inside};
use crate::error::{BatchError, BatchErrorType, BatchErrorView, FileError, FileErrorType,
    FileErrorView};

verus! {

/// The relative path that leads from the directory `base` to `path`, as
/// `pathdiff::diff_paths` computes it; none where it finds no such path.
pub uninterp spec fn diff_paths_text(path: Seq<char>, base: Seq<char>) -> Option<Seq<char>>;

/// `pathdiff::diff_paths`, on paths given as text: what it returns for the
/// two texts, which it works out from them alone.
#[verifier::external_body]
fn diff_paths(path: &str, base: &str) -> (r: Option<String>)
    ensures
        opt_text(r) == diff_paths_text(path@, base@),
{
    pathdiff::diff_paths(path, base).map(|p| p.to_string_lossy().into_owned())
}

/// What making a path absolute gave: the path, nothing where it is no
/// text, or the reason why it failed.
pub open spec fn absolutized_text(path: Seq<char>, made: Result<Option<String>, String>) -> Result<
    Seq<char>,
    Seq<char>,
> {
    match made {
        Ok(Some(p)) => Ok(p@),
        Ok(None) => Err("could not get absolute path for "@ + path),
        Err(e) => Err(e@),
    }
}

/// The absolute form of `path`, from what making it absolute gave.
pub fn absolutize_result(path: &String, made: Result<Option<String>, String>) -> (r: Result<
    String,
    String,
>)
    ensures
        res_text(r) == absolutized_text(path@, made),
{
    match made {
        Ok(Some(p)) => Ok(p),
        Ok(None) => {
            let mut m = String::from_str("could not get absolute path for ");
            m.append(path.as_str());
            Err(m)
        },
        Err(e) => Err(e),
    }
}

/// The path from `root_dir` to a file whose absolute path is `file_path`:
/// the failure to make the file's path absolute is handed on, and a pair of
/// paths that no relative path joins is a failure of its own.
pub open spec fn relative_to(root_dir: Seq<char>, file_path: Result<Seq<char>, Seq<char>>) -> Result<
    Seq<char>,
    Seq<char>,
> {
    match file_path {
        Err(e) => Err(e),
        Ok(f) => match diff_paths_text(f, root_dir) {
            Some(r) => Ok(r),
            None => Err("relative path not found"@),
        },
    }
}

/// The path from the directory `root_dir` to the file whose path made
/// absolute is `file_path`.
pub fn get_relative_path(root_dir: &String, file_path: &Result<String, String>) -> (r: Result<
    String,
    String,
>)
    ensures
        res_text(r) == relative_to(root_dir@, res_text(*file_path)),
{
    match file_path {
        Err(e) => Err(e.clone()),
        Ok(f) => match diff_paths(f.as_str(), root_dir.as_str()) {
            Some(r) => Ok(r),
            None => Err(String::from_str("relative path not found")),
        },
    }
}

/// The error of a batch that runs outside any repository.
pub open spec fn nearest_repo_error_view(dir: Seq<char>) -> BatchErrorView {
    BatchErrorView {
        error: BatchErrorType::GitRepoNotFound,
        error_message:
            "could not find git repo root; make sure you're in an active git repository: "@ + dir,
    }
}

/// Makes the error of a batch that runs outside any repository.
pub fn nearest_repo_error(dir: &String) -> (e: BatchError)
    ensures
        e@ == nearest_repo_error_view(dir@),
{
    let mut m = String::from_str(
        "could not find git repo root; make sure you're in an active git repository: ",
    );
    m.append(dir.as_str());
    BatchError { error: BatchErrorType::GitRepoNotFound, error_message: m }
}

/// The position of the first `true` among the first `upto` flags, if any.
pub open spec fn first_set(flags: Seq<bool>, upto: int) -> Option<int>
    decreases upto,
{
    if upto <= 0 {
        None
    } else {
        match first_set(flags, upto - 1) {
            Some(i) => Some(i),
            None => if flags[upto - 1] {
                Some(upto - 1)
            } else {
                None
            },
        }
    }
}

/// The first flag that is set is set, and none before it is.
pub proof fn lemma_first_set(flags: Seq<bool>, upto: int)
    requires
        0 <= upto <= flags.len(),
    ensures
        match first_set(flags, upto) {
            Some(i) => 0 <= i < upto && flags[i] && forall|j: int| 0 <= j < i ==> !flags[j],
            None => forall|j: int| 0 <= j < upto ==> !flags[j],
        },
    decreases upto,
{
    if upto > 0 {
        lemma_first_set(flags, upto - 1);
    }
}

/// The number of candidates that the flags cover.
pub open spec fn covered(candidates: int, flags: int) -> int {
    if candidates <= flags {
        candidates
    } else {
        flags
    }
}

/// The nearest repository root at or above `canonical`: the first of its
/// ancestors, itself included, that is flagged as holding a repository. A
/// directory that could not be resolved, or none flagged, is the error.
pub open spec fn nearest_repo(
    dir: Seq<char>,
    canonical: Result<Seq<char>, Seq<char>>,
    has_repo: Seq<bool>,
) -> Result<Seq<char>, BatchErrorView> {
    match canonical {
        Err(_) => Err(nearest_repo_error_view(dir)),
        Ok(c) => match first_set(has_repo, covered(ancestors_of(c).len() as int, has_repo.len() as int)) {
            Some(i) => Ok(ancestors_of(c)[i]),
            None => Err(nearest_repo_error_view(dir)),
        },
    }
}

/// The text of a result whose error is a batch error.
pub open spec fn batch_result_text(r: Result<String, BatchError>) -> Result<
    Seq<char>,
    BatchErrorView,
> {
    match r {
        Ok(s) => Ok(s@),
        Err(e) => Err(e@),
    }
}

/// Finds the repository root for the directory `dir`. `canonical` is `dir`
/// resolved, and `has_repo` says of each of its ancestors, in the order of
/// `ancestors`, whether a repository sits in it; an ancestor without a flag
/// counts as holding none.
pub fn get_nearest_repo_dir(
    dir: &String,
    canonical: &Result<String, String>,
    has_repo: &Vec<bool>,
) -> (r: Result<String, BatchError>)
    ensures
        batch_result_text(r) == nearest_repo(dir@, res_text(*canonical), has_repo@),
{
    match canonical {
        Err(_) => Err(nearest_repo_error(dir)),
        Ok(c) => {
            let candidates = ancestors(c.as_str());
            let n: usize = if candidates.len() <= has_repo.len() {
                candidates.len()
            } else {
                has_repo.len()
            };
            let mut i: usize = 0;
            while i < n
                invariant
                    i <= n,
                    res_text(*canonical) == Ok::<Seq<char>, Seq<char>>(c@),
                    n as int == covered(ancestors_of(c@).len() as int, has_repo@.len() as int),
                    candidates@.len() == ancestors_of(c@).len(),
                    forall|k: int|
                        0 <= k < candidates@.len() ==> (#[trigger] candidates@[k])@ == ancestors_of(
                            c@,
                        )[k],
                    first_set(has_repo@, i as int).is_none(),
                decreases n - i,
            {
                if has_repo[i] {
                    proof {
                        lemma_first_set_from(has_repo@, i as int, n as int);
                        assert(candidates@[i as int]@ == ancestors_of(c@)[i as int]);
                    }
                    let found = candidates[i].clone();
                    return Ok(found);
                }
                i += 1;
            }
            Err(nearest_repo_error(dir))
        },
    }
}

proof fn lemma_first_set_from(flags: Seq<bool>, i: int, n: int)
    requires
        0 <= i < n,
        first_set(flags, i).is_none(),
        flags[i],
    ensures
        first_set(flags, n) == Some(i),
    decreases n - i,
{
    if n > i + 1 {
        lemma_first_set_from(flags, i, n - 1);
    }
}

/// Whether the resolved path lies in the repository at `git_dir`.
pub fn dir_in_git_repo(canonical: &Result<String, String>, git_dir: &String) -> (b: bool)
    ensures
        b == (match *canonical {
            Ok(c) => lies_inside(c@, git_dir@),
            Err(_) => false,
        }),
{
    match canonical {
        Ok(c) => is_inside(c.as_str(), git_dir.as_str()),
        Err(_) => false,
    }
}

/// Why a path does not count as lying in the repository: it could not be
/// resolved, the repository's path is no prefix of it, or the repository's
/// path is empty.
pub open spec fn outside_reason(canonical: Result<Seq<char>, Seq<char>>, git_dir: Seq<char>) -> Option<
    Seq<char>,
> {
    match canonical {
        Err(e) => Some(e),
        Ok(_) => if git_dir.len() == 0 {
            None
        } else {
            Some("prefix not found"@)
        },
    }
}

/// The verdict on whether `local_path` lies in the repository at `git_dir`.
pub open spec fn in_repo_verdict(
    local_path: Seq<char>,
    canonical: Result<Seq<char>, Seq<char>>,
    absolute: Result<Seq<char>, Seq<char>>,
    git_dir: Seq<char>,
) -> Result<(), FileErrorView> {
    if canonical is Ok && lies_inside(canonical->Ok_0, git_dir) {
        Ok(())
    } else {
        Err(
            FileErrorView {
                relative_path: match relative_to(git_dir, absolute) {
                    Ok(r) => Some(r),
                    Err(_) => None,
                },
                absolute_path: match canonical {
                    Ok(c) => Some(c),
                    Err(_) => None,
                },
                error: FileErrorType::FileNotInGitRepo,
                error_message: outside_reason(canonical, git_dir),
                input: local_path,
            },
        )
    }
}

/// The view of a result that holds nothing or a file error.
pub open spec fn unit_result_view(r: Result<(), FileError>) -> Result<(), FileErrorView> {
    match r {
        Ok(_) => Ok(()),
        Err(e) => Err(e@),
    }
}

/// Checks that `local_path`, whose resolved form is `canonical` and whose
/// absolute form is `absolute`, lies in the repository at `git_dir`.
pub fn check_file_in_git_repo(
    local_path: &String,
    canonical: &Result<String, String>,
    absolute: &Result<String, String>,
    git_dir: &String,
) -> (r: Result<(), FileError>)
    ensures
        unit_result_view(r) == in_repo_verdict(
            local_path@,
            res_text(*canonical),
            res_text(*absolute),
            git_dir@,
        ),
{
    let message: Option<String> = match canonical {
        Ok(c) => {
            if is_inside(c.as_str(), git_dir.as_str()) {
                return Ok(());
            }
            if git_dir.as_str().unicode_len() == 0 {
                None
            } else {
                Some(String::from_str("prefix not found"))
            }
        },
        Err(e) => Some(e.clone()),
    };
    Err(in_repo_error(local_path, canonical, absolute, git_dir, message))
}

fn in_repo_error(
    local_path: &String,
    canonical: &Result<String, String>,
    absolute: &Result<String, String>,
    git_dir: &String,
    e: Option<String>,
) -> (r: FileError)
    ensures
        r@ == (FileErrorView {
            relative_path: match relative_to(git_dir@, res_text(*absolute)) {
                Ok(r) => Some(r),
                Err(_) => None,
            },
            absolute_path: match *canonical {
                Ok(c) => Some(c@),
                Err(_) => None,
            },
            error: FileErrorType::FileNotInGitRepo,
            error_message: opt_text(e),
            input: local_path@,
        }),
{
    let relative_path = match get_relative_path(git_dir, absolute) {
        Ok(r) => Some(r),
        Err(_) => None,
    };
    let absolute_path = match canonical {
        Ok(c) => Some(c.clone()),
        Err(_) => None,
    };
    FileError {
        relative_path,
        absolute_path,
        error: FileErrorType::FileNotInGitRepo,
        error_message: e,
        input: local_path.clone(),
    }
}

/// The name of the directory that marks the root of a repository.
pub open spec fn repo_marker_name() -> Seq<char> {
    ".git"@
}

/// Where the marker of a repository rooted at `dir` would lie.
pub fn is_git_repo(dir: &String) -> (marker: String)
    ensures
        marker@ == crate::path::joined(dir@, repo_marker_name()),
{
    crate::path::join(dir.as_str(), ".git")
}

/// The places to look at for the marker of a repository, from the resolved
/// directory `canonical` upwards: one for each of its ancestors, in the
/// order of `ancestors`.
pub fn repo_markers(canonical: &String) -> (markers: Vec<String>)
    ensures
        markers@.len() == ancestors_of(canonical@).len(),
        forall|i: int|
            0 <= i < markers@.len() ==> (#[trigger] markers@[i])@ == crate::path::joined(
                ancestors_of(canonical@)[i],
                repo_marker_name(),
            ),
{
    let dirs = ancestors(canonical.as_str());
    let mut markers: Vec<String> = Vec::new();
    let mut i: usize = 0;
    while i < dirs.len()
        invariant
            i <= dirs.len(),
            markers@.len() == i,
            dirs@.len() == ancestors_of(canonical@).len(),
            forall|k: int|
                0 <= k < dirs@.len() ==> (#[trigger] dirs@[k])@ == ancestors_of(canonical@)[k],
            forall|k: int|
                0 <= k < i ==> (#[trigger] markers@[k])@ == crate::path::joined(
                    ancestors_of(canonical@)[k],
                    repo_marker_name(),
                ),
        decreases dirs.len() - i,
    {
        assert(dirs@[i as int]@ == ancestors_of(canonical@)[i as int]);
        markers.push(is_git_repo(&dirs[i]));
        i += 1;
    }
    markers
}

} // verus!
