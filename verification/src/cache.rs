//! The hash cache: per file, the digest last computed and the modification
//! time that the file had then. An entry is trusted only while the file still
//! has exactly that modification time.

use vstd::prelude::*;

verus! {

/// A modification time as the system reports it: whole seconds since the
/// epoch, and the nanoseconds beyond them.
#[derive(Clone, Copy, PartialEq, Eq, Debug, Structural)]
pub struct ModTime {
    pub secs: u64,
    pub nanos: u32,
}

/// One entry of the hash cache.
#[derive(Debug, PartialEq, Eq)]
pub struct CacheData {
    pub hash: String,
    pub modification_time: Option<ModTime>,
}

/// What a [`CacheData`] holds, with every text as its characters.
pub struct CacheDataView {
    pub hash: Seq<char>,
    pub modification_time: Option<ModTime>,
}

impl View for CacheData {
    type V = CacheDataView;

    open spec fn view(&self) -> CacheDataView {
        CacheDataView { hash: self.hash@, modification_time: self.modification_time }
    }
}

impl Clone for CacheData {
    fn clone(&self) -> (r: Self)
        ensures
            r == *self,
    {
        CacheData { hash: self.hash.clone(), modification_time: self.modification_time }
    }
}

impl CacheDataView {
    /// What a lookup yields for a file whose modification time is now
    /// `current`: the digest where the entry was made at exactly that time,
    /// nothing where it was not.
    pub open spec fn lookup(self, current: ModTime) -> Option<Seq<char>> {
        if self.modification_time == Some(current) {
            Some(self.hash)
        } else {
            None
        }
    }

    /// The entry made for a digest computed from a file whose modification
    /// time is `current`.
    pub open spec fn fresh(hash: Seq<char>, current: ModTime) -> CacheDataView {
        CacheDataView { hash, modification_time: Some(current) }
    }
}

/// Looks a digest up in a cache entry, for a file whose modification time is
/// now `current`. `None` is a miss: the entry is stale and is to be deleted.
pub fn get_cached_hash(entry: &CacheData, current: ModTime) -> (r: Option<String>)
    ensures
        crate::text::opt_text(r) == entry@.lookup(current),
{
    match entry.modification_time {
        Some(t) => {
            if t.secs == current.secs && t.nanos == current.nanos {
                Some(entry.hash.clone())
            } else {
                None
            }
        },
        None => None,
    }
}

/// Makes the cache entry for a digest just computed from a file whose
/// modification time is `current`.
pub fn write_hash_to_cache(hash: &String, current: ModTime) -> (entry: CacheData)
    ensures
        entry@ == CacheDataView::fresh(hash@, current),
{
    CacheData { hash: hash.clone(), modification_time: Some(current) }
}

/// Cache correctness: an entry made for a file answers with its digest as
/// long as the file's modification time is the one it was made at, and
/// misses as soon as the time is any other.
pub proof fn lemma_cache_round_trip(hash: Seq<char>, made_at: ModTime, now: ModTime)
    ensures
        CacheDataView::fresh(hash, made_at).lookup(made_at) == Some(hash),
        now != made_at ==> CacheDataView::fresh(hash, made_at).lookup(now).is_none(),
{
}

/// Where the cache entry of a file lies below the cache's root: under the
/// name of the project, which is the last segment of the repository's
/// path, at the file's path relative to the repository. A file without
/// such a path, or a repository without a name, has no entry.
pub open spec fn cache_key(git_dir: Seq<char>, abs_path: Seq<char>) -> Result<Seq<char>, Seq<char>> {
    match crate::repo::relative_to(git_dir, Ok(abs_path)) {
        Err(e) => Err(e),
        Ok(relative) => if crate::path::file_name_of(git_dir).len() == 0 {
            Err("project name not found"@)
        } else {
            Ok(crate::path::joined(crate::path::file_name_of(git_dir), relative))
        },
    }
}

/// Works out where the cache entry of the file at `abs_path` lies below the
/// cache's root, for the repository at `git_dir`.
pub fn get_cache_path(git_dir: &String, abs_path: &String) -> (r: Result<String, String>)
    ensures
        crate::text::res_text(r) == cache_key(git_dir@, abs_path@),
{
    let relative = match crate::repo::get_relative_path(git_dir, &Ok(abs_path.clone())) {
        Ok(r) => r,
        Err(e) => {
            return Err(e);
        },
    };
    let name = crate::path::file_name(git_dir.as_str());
    if name.as_str().unicode_len() == 0 {
        Err(String::from_str("project name not found"))
    } else {
        Ok(crate::path::join(name.as_str(), relative.as_str()))
    }
}

} // verus!
