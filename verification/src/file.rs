//! The sidecar record of a tracked file, the naming of sidecar files, and
//! what is known of where an input path lies.

use vstd::prelude::*;
use crate::text::{to_chars, from_chars, slice_chars, ends_with, opt_text, res_text};
use crate::error::{FileError, FileErrorType, FileErrorView, BatchError, BatchErrorType,
    BatchErrorView, file_result, file_text_result};
use crate::repo::{relative_to, get_relative_path};

verus! {

/// The record kept beside a tracked file.
#[derive(Debug, PartialEq, Eq)]
pub struct Metadata {
    pub blake3_checksum: String,
    pub file_size_bytes: u64,
    pub time_stamp: String,
    pub message: String,
    pub saved_by: String,
}

/// What a [`Metadata`] holds, with every text as its characters.
pub struct MetadataView {
    pub blake3_checksum: Seq<char>,
    pub file_size_bytes: u64,
    pub time_stamp: Seq<char>,
    pub message: Seq<char>,
    pub saved_by: Seq<char>,
}

impl View for Metadata {
    type V = MetadataView;

    open spec fn view(&self) -> MetadataView {
        MetadataView {
            blake3_checksum: self.blake3_checksum@,
            file_size_bytes: self.file_size_bytes,
            time_stamp: self.time_stamp@,
            message: self.message@,
            saved_by: self.saved_by@,
        }
    }
}

impl Clone for Metadata {
    fn clone(&self) -> (r: Self)
        ensures
            r == *self,
    {
        Metadata {
            blake3_checksum: self.blake3_checksum.clone(),
            file_size_bytes: self.file_size_bytes,
            time_stamp: self.time_stamp.clone(),
            message: self.message.clone(),
            saved_by: self.saved_by.clone(),
        }
    }
}

/// The ending that marks a sidecar file.
pub open spec fn sidecar_suffix() -> Seq<char> {
    seq!['.', 'd', 'v', 's']
}

/// Whether a path ends in the sidecar ending.
pub open spec fn is_sidecar_path(path: Seq<char>) -> bool {
    ends_with(path, sidecar_suffix())
}

/// The tracked path that a path stands for: a path that ends in the sidecar
/// ending stands for the path without that ending, any other for itself.
/// Nothing but a final ending is ever taken away.
pub open spec fn tracked_path_of(path: Seq<char>) -> Seq<char> {
    if is_sidecar_path(path) {
        path.take(path.len() - 4)
    } else {
        path
    }
}

/// The path of the sidecar that belongs to a path: the path itself where it
/// ends in the sidecar ending, else the path with the ending appended.
pub open spec fn sidecar_path_of(path: Seq<char>) -> Seq<char> {
    if is_sidecar_path(path) {
        path
    } else {
        path + sidecar_suffix()
    }
}

fn ends_in_suffix(v: &Vec<char>) -> (b: bool)
    ensures
        b == is_sidecar_path(v@),
{
    let n = v.len();
    if n < 4 {
        return false;
    }
    let b = v[n - 4] == '.' && v[n - 3] == 'd' && v[n - 2] == 'v' && v[n - 1] == 's';
    proof {
        let tail = v@.skip(n - 4);
        if b {
            assert(tail =~= sidecar_suffix());
        } else {
            assert(tail[0] == v@[n - 4] && tail[1] == v@[n - 3] && tail[2] == v@[n - 2] && tail[3]
                == v@[n - 1]);
        }
    }
    b
}

/// The tracked path that `path` stands for.
pub fn path_without_metadata(path: &String) -> (r: String)
    ensures
        r@ == tracked_path_of(path@),
{
    let v = to_chars(path.as_str());
    if ends_in_suffix(&v) {
        let head = slice_chars(&v, 0, v.len() - 4);
        assert(head@ =~= path@.take(path@.len() - 4));
        from_chars(&head)
    } else {
        path.clone()
    }
}

/// The path of the sidecar of `path`.
pub fn metadata_path(path: &String) -> (r: String)
    ensures
        r@ == sidecar_path_of(path@),
{
    let v = to_chars(path.as_str());
    if ends_in_suffix(&v) {
        path.clone()
    } else {
        let mut r = path.clone();
        r.push('.');
        r.push('d');
        r.push('v');
        r.push('s');
        assert(r@ =~= path@ + sidecar_suffix());
        r
    }
}

/// The sidecar naming can be undone. For a tracked path, which does not end
/// in the sidecar ending, the sidecar is the path with the ending appended,
/// and from the sidecar the tracked path comes back; the tracked path
/// stands for itself, and its sidecar is its own sidecar.
pub proof fn lemma_sidecar_round_trip(path: Seq<char>)
    requires
        !is_sidecar_path(path),
    ensures
        sidecar_path_of(path) == path + sidecar_suffix(),
        tracked_path_of(sidecar_path_of(path)) == path,
        sidecar_path_of(tracked_path_of(sidecar_path_of(path))) == sidecar_path_of(path),
        tracked_path_of(path) == path,
        sidecar_path_of(sidecar_path_of(path)) == sidecar_path_of(path),
{
    let s = path + sidecar_suffix();
    assert(s.skip(s.len() - 4) =~= sidecar_suffix());
    assert(s.take(s.len() - 4) =~= path);
}

/// Whatever the path, its sidecar ends in the sidecar ending and is its own
/// sidecar, and the path of a sidecar is the tracked path with the ending:
/// only the ending is ever appended or taken away.
pub proof fn lemma_sidecar_naming(path: Seq<char>)
    ensures
        is_sidecar_path(sidecar_path_of(path)),
        sidecar_path_of(sidecar_path_of(path)) == sidecar_path_of(path),
        is_sidecar_path(path) ==> tracked_path_of(path) + sidecar_suffix() == path,
        !is_sidecar_path(path) ==> tracked_path_of(sidecar_path_of(path)) == path,
{
    if is_sidecar_path(path) {
        assert(path.take(path.len() - 4) + path.skip(path.len() - 4) =~= path);
    } else {
        lemma_sidecar_round_trip(path);
        let s = path + sidecar_suffix();
        assert(s.skip(s.len() - 4) =~= sidecar_suffix());
    }
}

/// What the file system says of where an input path lies.
#[derive(Debug, PartialEq, Eq)]
pub struct PathProbe {
    /// The path with every link and relative part resolved; it exists.
    pub canonical: Result<String, String>,
    /// The path made absolute, whether or not it exists.
    pub absolute: Result<String, String>,
    /// As `canonical`, of the path's sidecar.
    pub sidecar_canonical: Result<String, String>,
    /// As `absolute`, of the path's sidecar.
    pub sidecar_absolute: Result<String, String>,
    /// Whether the path is a directory.
    pub is_dir: bool,
}

/// What a [`PathProbe`] holds, with every text as its characters.
pub struct PathProbeView {
    pub canonical: Result<Seq<char>, Seq<char>>,
    pub absolute: Result<Seq<char>, Seq<char>>,
    pub sidecar_canonical: Result<Seq<char>, Seq<char>>,
    pub sidecar_absolute: Result<Seq<char>, Seq<char>>,
    pub is_dir: bool,
}

impl View for PathProbe {
    type V = PathProbeView;

    open spec fn view(&self) -> PathProbeView {
        PathProbeView {
            canonical: res_text(self.canonical),
            absolute: res_text(self.absolute),
            sidecar_canonical: res_text(self.sidecar_canonical),
            sidecar_absolute: res_text(self.sidecar_absolute),
            is_dir: self.is_dir,
        }
    }
}

/// What is known of a path that was not located yet: nothing.
pub open spec fn unknown_probe() -> PathProbeView {
    PathProbeView {
        canonical: Err(Seq::empty()),
        absolute: Err(Seq::empty()),
        sidecar_canonical: Err(Seq::empty()),
        sidecar_absolute: Err(Seq::empty()),
        is_dir: false,
    }
}

impl PathProbe {
    /// What is known of a path that was not located yet.
    pub fn unknown() -> (p: PathProbe)
        ensures
            p@ == unknown_probe(),
    {
        PathProbe {
            canonical: Err(String::new()),
            absolute: Err(String::new()),
            sidecar_canonical: Err(String::new()),
            sidecar_absolute: Err(String::new()),
            is_dir: false,
        }
    }
}

/// A copy of a result that holds a string either way.
pub fn clone_result(r: &Result<String, String>) -> (c: Result<String, String>)
    ensures
        c == *r,
{
    match r {
        Ok(s) => Ok(s.clone()),
        Err(e) => Err(e.clone()),
    }
}

impl Clone for PathProbe {
    fn clone(&self) -> (r: Self)
        ensures
            r == *self,
    {
        PathProbe {
            canonical: clone_result(&self.canonical),
            absolute: clone_result(&self.absolute),
            sidecar_canonical: clone_result(&self.sidecar_canonical),
            sidecar_absolute: clone_result(&self.sidecar_absolute),
            is_dir: self.is_dir,
        }
    }
}

/// The best that is known of a file's absolute path: the resolved path of
/// its sidecar, without the ending; else its own resolved path; else its
/// path made absolute; else that of its sidecar, without the ending.
pub open spec fn absolute_hint(p: PathProbeView) -> Option<Seq<char>> {
    match p.sidecar_canonical {
        Ok(s) => Some(tracked_path_of(s)),
        Err(_) => match p.canonical {
            Ok(c) => Some(c),
            Err(_) => match p.absolute {
                Ok(a) => Some(a),
                Err(_) => match p.sidecar_absolute {
                    Ok(s) => Some(tracked_path_of(s)),
                    Err(_) => None,
                },
            },
        },
    }
}

/// The best that is known of a file's path relative to `root`: that of its
/// sidecar, without the ending; else its own.
pub open spec fn relative_hint(p: PathProbeView, root: Seq<char>) -> Option<Seq<char>> {
    match relative_to(root, p.sidecar_absolute) {
        Ok(r) => Some(tracked_path_of(r)),
        Err(_) => match relative_to(root, p.absolute) {
            Ok(r) => Some(r),
            Err(_) => None,
        },
    }
}

/// The best that is known of the file's absolute path.
pub fn try_to_get_abs_path(probe: &PathProbe) -> (r: Option<String>)
    ensures
        opt_text(r) == absolute_hint(probe@),
{
    match &probe.sidecar_canonical {
        Ok(s) => Some(path_without_metadata(s)),
        Err(_) => match &probe.canonical {
            Ok(c) => Some(c.clone()),
            Err(_) => match &probe.absolute {
                Ok(a) => Some(a.clone()),
                Err(_) => match &probe.sidecar_absolute {
                    Ok(s) => Some(path_without_metadata(s)),
                    Err(_) => None,
                },
            },
        },
    }
}

/// The best that is known of the file's path relative to `root`.
pub fn try_to_get_rel_path(probe: &PathProbe, root: &String) -> (r: Option<String>)
    ensures
        opt_text(r) == relative_hint(probe@, root@),
{
    match get_relative_path(root, &probe.sidecar_absolute) {
        Ok(r) => Some(path_without_metadata(&r)),
        Err(_) => match get_relative_path(root, &probe.absolute) {
            Ok(r) => Some(r),
            Err(_) => None,
        },
    }
}

/// An error of the file `input`, with the best that is known of where it lies.
pub open spec fn located_error(
    input: Seq<char>,
    p: PathProbeView,
    root: Seq<char>,
    error: FileErrorType,
    message: Option<Seq<char>>,
) -> FileErrorView {
    FileErrorView {
        relative_path: relative_hint(p, root),
        absolute_path: absolute_hint(p),
        error,
        error_message: message,
        input,
    }
}

/// Makes an error of the file `input`, with the best that is known of
/// where it lies.
pub fn make_located_error(
    input: &String,
    probe: &PathProbe,
    root: &String,
    error: FileErrorType,
    message: Option<String>,
) -> (e: FileError)
    ensures
        e@ == located_error(input@, probe@, root@, error, opt_text(message)),
{
    FileError {
        relative_path: try_to_get_rel_path(probe, root),
        absolute_path: try_to_get_abs_path(probe),
        error,
        error_message: message,
        input: input.clone(),
    }
}

/// The resolved path of a file, or the error of a path that does not resolve.
pub open spec fn absolute_path_of(input: Seq<char>, p: PathProbeView, root: Seq<char>) -> Result<
    Seq<char>,
    FileErrorView,
> {
    match p.canonical {
        Ok(c) => Ok(c),
        Err(e) => Err(
            FileErrorView {
                relative_path: relative_hint(p, root),
                absolute_path: match p.absolute {
                    Ok(a) => Some(a),
                    Err(_) => None,
                },
                error: FileErrorType::AbsolutePathNotFound,
                error_message: Some(e),
                input,
            },
        ),
    }
}

/// The resolved path of the file given as `input`.
pub fn get_absolute_path(input: &String, probe: &PathProbe, root: &String) -> (r: Result<
    String,
    FileError,
>)
    ensures
        file_text_result(r) == absolute_path_of(input@, probe@, root@),
{
    match &probe.canonical {
        Ok(c) => Ok(c.clone()),
        Err(e) => Err(
            FileError {
                relative_path: try_to_get_rel_path(probe, root),
                absolute_path: match &probe.absolute {
                    Ok(a) => Some(a.clone()),
                    Err(_) => None,
                },
                error: FileErrorType::AbsolutePathNotFound,
                error_message: Some(e.clone()),
                input: input.clone(),
            },
        ),
    }
}

/// The path of a file relative to `root`, or the error of a file that has
/// none.
pub open spec fn relative_path_of(input: Seq<char>, p: PathProbeView, root: Seq<char>) -> Result<
    Seq<char>,
    FileErrorView,
> {
    match relative_to(root, p.absolute) {
        Ok(r) => Ok(r),
        Err(e) => Err(
            FileErrorView {
                relative_path: None,
                absolute_path: absolute_hint(p),
                error: FileErrorType::RelativePathNotFound,
                error_message: Some(e),
                input,
            },
        ),
    }
}

/// The path of the file relative to `root`, the directory that the batch
/// takes relative paths from.
pub fn get_relative_path_to_wd(input: &String, probe: &PathProbe, root: &String) -> (r: Result<
    String,
    FileError,
>)
    ensures
        file_text_result(r) == relative_path_of(input@, probe@, root@),
{
    match get_relative_path(root, &probe.absolute) {
        Ok(r) => Ok(r),
        Err(e) => Err(
            FileError {
                relative_path: None,
                absolute_path: try_to_get_abs_path(probe),
                error: FileErrorType::RelativePathNotFound,
                error_message: Some(e),
                input: input.clone(),
            },
        ),
    }
}

/// Refuses a directory.
pub fn check_if_dir(input: &String, probe: &PathProbe, root: &String) -> (r: Result<(), FileError>)
    ensures
        file_result(r) == (if probe.is_dir {
            Err(located_error(input@, probe@, root@, FileErrorType::PathIsDirectory, None))
        } else {
            Ok(())
        }),
{
    if probe.is_dir {
        Err(make_located_error(input, probe, root, FileErrorType::PathIsDirectory, None))
    } else {
        Ok(())
    }
}

/// The size of a file, from what asking for it gave.
pub fn get_file_size(input: &String, probe: &PathProbe, root: &String, size: Result<u64, String>) -> (r:
    Result<u64, FileError>)
    ensures
        file_result(r) == (match size {
            Ok(n) => Ok(n),
            Err(e) => Err(
                located_error(input@, probe@, root@, FileErrorType::SizeNotFound, Some(e@)),
            ),
        }),
{
    match size {
        Ok(n) => Ok(n),
        Err(e) => Err(make_located_error(input, probe, root, FileErrorType::SizeNotFound, Some(e))),
    }
}

/// The name of a file's owner, from what looking the owner up gave: a name,
/// no name for a user that the system does not know, or a failure.
pub fn get_user_helper(owner: Result<Option<String>, String>) -> (r: Result<String, String>)
    ensures
        res_text(r) == (match owner {
            Ok(Some(n)) => Ok(n@),
            Ok(None) => Err("owner not found"@),
            Err(e) => Err(e@),
        }),
{
    match owner {
        Ok(Some(n)) => Ok(n),
        Ok(None) => Err(String::from_str("owner not found")),
        Err(e) => Err(e),
    }
}

/// The name of a file's owner, or the error of a file whose owner is not
/// known.
pub fn get_user_name(
    input: &String,
    probe: &PathProbe,
    root: &String,
    owner: Result<Option<String>, String>,
) -> (r: Result<String, FileError>)
    ensures
        file_text_result(r) == (match owner {
            Ok(Some(n)) => Ok(n@),
            Ok(None) => Err(
                located_error(
                    input@,
                    probe@,
                    root@,
                    FileErrorType::OwnerNotFound,
                    Some("owner not found"@),
                ),
            ),
            Err(e) => Err(
                located_error(input@, probe@, root@, FileErrorType::OwnerNotFound, Some(e@)),
            ),
        }),
{
    match get_user_helper(owner) {
        Ok(n) => Ok(n),
        Err(e) => Err(make_located_error(input, probe, root, FileErrorType::OwnerNotFound, Some(e))),
    }
}

/// The view of a result that holds a sidecar record or a file error.
pub open spec fn metadata_result(r: Result<Metadata, FileError>) -> Result<
    MetadataView,
    FileErrorView,
> {
    match r {
        Ok(m) => Ok(m@),
        Err(e) => Err(e@),
    }
}

/// The sidecar record of a file, from what reading the sidecar gave.
pub fn load(input: &String, probe: &PathProbe, root: &String, loaded: Result<Metadata, String>) -> (r:
    Result<Metadata, FileError>)
    ensures
        metadata_result(r) == (match loaded {
            Ok(m) => Ok(m@),
            Err(e) => Err(
                located_error(input@, probe@, root@, FileErrorType::MetadataNotLoaded, Some(e@)),
            ),
        }),
{
    match loaded {
        Ok(m) => Ok(m),
        Err(e) => Err(
            make_located_error(input, probe, root, FileErrorType::MetadataNotLoaded, Some(e)),
        ),
    }
}

/// Settles a write of the sidecar of `input`, from what writing gave.
pub fn save(input: &String, probe: &PathProbe, root: &String, written: Result<(), String>) -> (r:
    Result<(), FileError>)
    ensures
        file_result(r) == (match written {
            Ok(_) => Ok(()),
            Err(e) => Err(
                located_error(input@, probe@, root@, FileErrorType::MetadataNotSaved, Some(e@)),
            ),
        }),
{
    match written {
        Ok(_) => Ok(()),
        Err(e) => Err(
            make_located_error(input, probe, root, FileErrorType::MetadataNotSaved, Some(e)),
        ),
    }
}

/// The first position whose path has no sidecar, if there is one. A path
/// without a flag counts as having none.
pub open spec fn first_untracked(has_sidecar: Seq<bool>, upto: int) -> Option<int>
    decreases upto,
{
    if upto <= 0 {
        None
    } else {
        match first_untracked(has_sidecar, upto - 1) {
            Some(i) => Some(i),
            None => if upto - 1 < has_sidecar.len() && has_sidecar[upto - 1] {
                None
            } else {
                Some(upto - 1)
            },
        }
    }
}

/// The error of a batch that names a file without a sidecar.
pub open spec fn missing_sidecar_error(path: Seq<char>) -> BatchErrorView {
    BatchErrorView { error: BatchErrorType::AnyMetaFilesDNE, error_message: "missing for "@ + path }
}

/// Makes the error of a batch that names `path`, which has no sidecar.
pub fn make_missing_sidecar_error(path: &String) -> (e: BatchError)
    ensures
        e@ == missing_sidecar_error(path@),
{
    let mut m = String::from_str("missing for ");
    m.append(path.as_str());
    BatchError { error: BatchErrorType::AnyMetaFilesDNE, error_message: m }
}

/// Checks that every queued path has a sidecar: `has_sidecar` says so of
/// each, in order. The first that has none is the batch's error.
pub fn check_meta_files_exist(queued_paths: &Vec<String>, has_sidecar: &Vec<bool>) -> (r: Result<
    (),
    BatchError,
>)
    ensures
        crate::config::batch_result(r) == (match first_untracked(
            has_sidecar@,
            queued_paths@.len() as int,
        ) {
            Some(i) => Err(missing_sidecar_error(queued_paths@[i]@)),
            None => Ok(()),
        }),
{
    let mut i: usize = 0;
    while i < queued_paths.len()
        invariant
            i <= queued_paths.len(),
            first_untracked(has_sidecar@, i as int).is_none(),
        decreases queued_paths.len() - i,
    {
        if !(i < has_sidecar.len() && has_sidecar[i]) {
            proof {
                lemma_first_untracked_from(has_sidecar@, i as int, queued_paths@.len() as int);
            }
            return Err(make_missing_sidecar_error(&queued_paths[i]));
        }
        i += 1;
    }
    Ok(())
}

proof fn lemma_first_untracked_from(has_sidecar: Seq<bool>, i: int, n: int)
    requires
        0 <= i < n,
        first_untracked(has_sidecar, i).is_none(),
        !(i < has_sidecar.len() && has_sidecar[i]),
    ensures
        first_untracked(has_sidecar, n) == Some(i),
    decreases n - i,
{
    if n > i + 1 {
        lemma_first_untracked_from(has_sidecar, i, n - 1);
    }
}

/// Whether the path at position `j` is flagged as having a sidecar.
pub open spec fn has_sidecar_at(has_sidecar: Seq<bool>, j: int) -> bool {
    0 <= j < has_sidecar.len() && has_sidecar[j]
}

/// What the first path without a sidecar is: one of the paths looked at,
/// without a sidecar, and with a sidecar for every path before it. Where
/// there is none, every path looked at has a sidecar.
pub proof fn lemma_first_untracked(has_sidecar: Seq<bool>, upto: int)
    ensures
        match first_untracked(has_sidecar, upto) {
            Some(i) => {
                &&& 0 <= i < upto
                &&& !has_sidecar_at(has_sidecar, i)
                &&& forall|j: int| 0 <= j < i ==> #[trigger] has_sidecar_at(has_sidecar, j)
            },
            None => forall|j: int| 0 <= j < upto ==> #[trigger] has_sidecar_at(has_sidecar, j),
        },
    decreases upto,
{
    if upto > 0 {
        lemma_first_untracked(has_sidecar, upto - 1);
        if first_untracked(has_sidecar, upto - 1) is None {
            assert forall|j: int| 0 <= j < upto - 1 implies #[trigger] has_sidecar_at(
                has_sidecar,
                j,
            ) by {}
        }
    }
}

} // verus!
