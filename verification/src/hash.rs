//! Content hashing and the place of a stored object.
//!
//! The digest is BLAKE3, as a string of 64 lower-case hex digits. A file may
//! be hashed in one piece, from a mapping of it, or piece by piece through a
//! [`StreamHasher`]; either way the digest is that of the file's bytes.

use vstd::prelude::*;
use crate::text::{to_chars, from_chars, slice_chars};
use crate::path::{join, joined};
use crate::exchange::{Request, RequestView, Reply, ReplyView};
use crate::cache::get_cached_hash;

verus! {

/// The BLAKE3 digest of `data`, as lower-case hex text.
pub uninterp spec fn blake3_hex(data: Seq<u8>) -> Seq<char>;

/// The bytes that a hasher has taken in so far.
pub uninterp spec fn absorbed(h: blake3::Hasher) -> Seq<u8>;

/// `blake3::Hasher`, of which nothing is known but what it has taken in.
#[verifier::external_type_specification]
#[verifier::external_body]
pub struct ExHasher(blake3::Hasher);

/// Whether `c` is a lower-case hex digit.
pub open spec fn is_hex_digit(c: char) -> bool {
    ('0' <= c && c <= '9') || ('a' <= c && c <= 'f')
}

/// The shape of a digest: 64 lower-case hex digits.
pub open spec fn is_digest(s: Seq<char>) -> bool {
    &&& s.len() == 64
    &&& forall|i: int| 0 <= i < s.len() ==> is_hex_digit(#[trigger] s[i])
}

/// `blake3::Hasher::new`: a hasher that has taken in nothing yet.
pub assume_specification[ blake3::Hasher::new ]() -> (h: blake3::Hasher)
    ensures
        absorbed(h) == Seq::<u8>::empty(),
;

/// `blake3::Hasher::update`: the hasher has taken in `data` after what it
/// held before.
#[verifier::external_body]
fn hasher_update(h: &mut blake3::Hasher, data: &[u8])
    ensures
        absorbed(*final(h)) == absorbed(*old(h)) + data@,
{
    h.update(data);
}

/// `blake3::Hasher::update_rayon`: as `update`, which it differs from only in
/// working on several threads.
#[verifier::external_body]
fn hasher_update_rayon(h: &mut blake3::Hasher, data: &[u8])
    ensures
        absorbed(*final(h)) == absorbed(*old(h)) + data@,
{
    h.update_rayon(data);
}

/// `blake3::Hasher::finalize`, printed as `blake3::Hash` prints itself: the
/// digest of all that the hasher has taken in, 64 lower-case hex digits.
#[verifier::external_body]
fn hasher_hex(h: &blake3::Hasher) -> (s: String)
    ensures
        s@ == blake3_hex(absorbed(*h)),
        is_digest(s@),
{
    h.finalize().to_string()
}

/// Files of at least this many bytes are hashed from a mapping.
pub const MEMMAP_THRESHOLD: u64 = 16384;

/// The size of the buffer through which smaller files are read.
pub const STREAM_BUFFER_LEN: usize = 16384;

/// Whether a file is to be mapped: a regular file that is not empty, not
/// below the threshold, and small enough for its length to be an offset.
pub open spec fn wants_mapping(is_file: bool, size: u64) -> bool {
    is_file && size <= isize::MAX as u64 && size != 0 && size >= MEMMAP_THRESHOLD
}

/// Chooses between hashing a mapping of the file and streaming it.
pub fn maybe_memmap_file(is_file: bool, size: u64) -> (map: bool)
    ensures
        map == wants_mapping(is_file, size),
{
    if !is_file {
        false
    } else if size > isize::MAX as u64 {
        false
    } else if size == 0 {
        false
    } else if size < MEMMAP_THRESHOLD {
        false
    } else {
        true
    }
}

/// A hash in progress over the pieces of a file.
pub struct StreamHasher {
    inner: blake3::Hasher,
}

impl StreamHasher {
    /// The bytes taken in so far.
    pub closed spec fn fed(&self) -> Seq<u8> {
        absorbed(self.inner)
    }

    /// A hash that has taken in nothing yet.
    pub fn new() -> (h: Self)
        ensures
            h.fed() == Seq::<u8>::empty(),
    {
        StreamHasher { inner: blake3::Hasher::new() }
    }

    /// Takes in one more piece.
    pub fn update(&mut self, piece: &[u8])
        ensures
            final(self).fed() == old(self).fed() + piece@,
    {
        hasher_update(&mut self.inner, piece);
    }

    /// Takes in one more piece, working on several threads.
    pub fn update_parallel(&mut self, piece: &[u8])
        ensures
            final(self).fed() == old(self).fed() + piece@,
    {
        hasher_update_rayon(&mut self.inner, piece);
    }

    /// The digest of everything taken in.
    pub fn finish(&self) -> (s: String)
        ensures
            s@ == blake3_hex(self.fed()),
            is_digest(s@),
    {
        hasher_hex(&self.inner)
    }
}

/// The pieces of a file, one after the other.
pub open spec fn concat_pieces(pieces: Seq<Vec<u8>>) -> Seq<u8>
    decreases pieces.len(),
{
    if pieces.len() == 0 {
        Seq::empty()
    } else {
        concat_pieces(pieces.drop_last()) + pieces.last()@
    }
}

/// The digest of a file that is at hand in one piece, such as a mapping.
pub fn hash_file_with_blake3(data: &[u8]) -> (s: String)
    ensures
        s@ == blake3_hex(data@),
        is_digest(s@),
{
    let mut h = StreamHasher::new();
    h.update_parallel(data);
    assert(h.fed() =~= data@);
    h.finish()
}

/// The digest of a file whose pieces are at hand, in order: that of the
/// pieces put together, however the file was cut. A caller that reads a
/// file too large to hold feeds a `StreamHasher` piece by piece instead;
/// this function is the same loop over pieces that are all there, and
/// states what that loop comes to.
pub fn hash_file_with_blake3_direct(pieces: &Vec<Vec<u8>>) -> (s: String)
    ensures
        s@ == blake3_hex(concat_pieces(pieces@)),
        is_digest(s@),
{
    let mut h = StreamHasher::new();
    let mut i: usize = 0;
    while i < pieces.len()
        invariant
            i <= pieces.len(),
            h.fed() == concat_pieces(pieces@.take(i as int)),
        decreases pieces.len() - i,
    {
        h.update(pieces[i].as_slice());
        proof {
            assert(pieces@.take(i + 1).drop_last() =~= pieces@.take(i as int));
        }
        i += 1;
    }
    assert(pieces@.take(i as int) =~= pieces@);
    h.finish()
}

/// Where the object with digest `hash` lies under `storage_dir`: in the
/// directory named by the first two characters of the digest, under the rest
/// of the digest as its name.
pub open spec fn storage_path_of(storage_dir: Seq<char>, hash: Seq<char>) -> Seq<char> {
    joined(joined(storage_dir, hash.take(2)), hash.skip(2))
}

/// The place of the object with the digest `file_hash` under `storage_dir`.
pub fn get_storage_path(storage_dir: &String, file_hash: &String) -> (r: String)
    requires
        file_hash@.len() >= 2,
    ensures
        r@ == storage_path_of(storage_dir@, file_hash@),
{
    let h = to_chars(file_hash.as_str());
    let first = from_chars(&slice_chars(&h, 0, 2));
    let second = from_chars(&slice_chars(&h, 2, h.len()));
    assert(first@ =~= file_hash@.take(2));
    assert(second@ =~= file_hash@.skip(2));
    let shard = join(storage_dir.as_str(), first.as_str());
    join(shard.as_str(), second.as_str())
}

/// Content addressing: under a storage directory that does not end in a
/// separator, the object of a digest lies at the directory, a separator, the
/// first two digits, a separator, and the other sixty-two digits; so two
/// digests share a place only if they are the same digest.
pub proof fn lemma_storage_path_shape(storage_dir: Seq<char>, hash: Seq<char>)
    requires
        is_digest(hash),
        storage_dir.len() > 0,
        storage_dir.last() != '/',
    ensures
        storage_path_of(storage_dir, hash) == storage_dir + seq!['/'] + hash.take(2) + seq!['/']
            + hash.skip(2),
{
    assert(is_hex_digit(hash[0]));
    assert(is_hex_digit(hash[2]));
    assert(is_hex_digit(hash[1]));
    let shard = joined(storage_dir, hash.take(2));
    assert(hash.take(2)[0] == hash[0]);
    assert(shard =~= storage_dir + seq!['/'] + hash.take(2));
    assert(shard.last() == hash[1]);
    assert(hash.skip(2)[0] == hash[2]);
    assert(joined(shard, hash.skip(2)) =~= storage_dir + seq!['/'] + hash.take(2) + seq!['/']
        + hash.skip(2));
}

/// Two digests that lie at the same place under the same storage directory
/// are the same digest.
pub proof fn lemma_storage_path_injective(storage_dir: Seq<char>, a: Seq<char>, b: Seq<char>)
    requires
        is_digest(a),
        is_digest(b),
        storage_dir.len() > 0,
        storage_dir.last() != '/',
        storage_path_of(storage_dir, a) == storage_path_of(storage_dir, b),
    ensures
        a == b,
{
    lemma_storage_path_shape(storage_dir, a);
    lemma_storage_path_shape(storage_dir, b);
    let pa = storage_path_of(storage_dir, a);
    let pb = storage_path_of(storage_dir, b);
    let n = storage_dir.len() as int;
    assert forall|i: int| 0 <= i < 64 implies a[i] == b[i] by {
        if i < 2 {
            assert(pa[n + 1 + i] == a.take(2)[i]);
            assert(pb[n + 1 + i] == b.take(2)[i]);
        } else {
            assert(pa[n + 2 + i] == a.skip(2)[i - 2]);
            assert(pb[n + 2 + i] == b.skip(2)[i - 2]);
        }
    }
    assert(a =~= b);
}

/// Where the search for a file's digest stands.
#[derive(Clone, Copy, PartialEq, Eq, Debug, Structural)]
pub enum LookupStage {
    /// The cache entry was asked for.
    Cache,
    /// A stale cache entry is being deleted.
    Dropping,
    /// The digest is being computed from the file's bytes.
    Digesting,
    /// The digest just computed is being written to the cache.
    Writing,
}

/// The search for the digest of one file: from the cache where its entry is
/// valid, else from the file's bytes, with the cache brought up to date.
#[derive(Debug, PartialEq, Eq)]
pub struct HashLookup {
    pub stage: LookupStage,
    pub path: String,
    /// The digest that was computed, once it was.
    pub hash: String,
}

/// What a [`HashLookup`] holds, with every text as its characters.
pub struct HashLookupView {
    pub stage: LookupStage,
    pub path: Seq<char>,
    pub hash: Seq<char>,
}

impl View for HashLookup {
    type V = HashLookupView;

    open spec fn view(&self) -> HashLookupView {
        HashLookupView { stage: self.stage, path: self.path@, hash: self.hash@ }
    }
}

/// The search goes on with a request, or it is done with the answer to hand
/// back to whoever asked for the digest: the digest as a text, or a failure.
#[derive(Debug, PartialEq, Eq)]
pub enum HashProgress {
    Pending(HashLookup, Request),
    Done(Reply),
}

/// What a [`HashProgress`] holds, with every text as its characters.
pub enum HashProgressView {
    Pending(HashLookupView, RequestView),
    Done(ReplyView),
}

impl View for HashProgress {
    type V = HashProgressView;

    open spec fn view(&self) -> HashProgressView {
        match *self {
            HashProgress::Pending(m, r) => HashProgressView::Pending(m@, r@),
            HashProgress::Done(r) => HashProgressView::Done(r@),
        }
    }
}

/// The first move: ask the cache.
pub open spec fn lookup_start(path: Seq<char>) -> HashProgressView {
    HashProgressView::Pending(
        HashLookupView { stage: LookupStage::Cache, path, hash: Seq::empty() },
        RequestView::ReadCache { path },
    )
}

/// The move after an answer.
///
/// A cache entry made at the file's present modification time settles the
/// search with its digest. An entry made at any other time is deleted, and
/// then, as where the cache gave no entry at all, the digest is computed. A
/// digest that was computed is written to the cache, and whatever comes of
/// that, it is the result. A digest that could not be computed is a failure
/// with the reason given, the empty one where none was.
pub open spec fn lookup_next(m: HashLookupView, reply: ReplyView) -> HashProgressView {
    match m.stage {
        LookupStage::Cache => match reply {
            ReplyView::Cache(entry, now) => match entry.lookup(now) {
                Some(h) => HashProgressView::Done(ReplyView::Text(h)),
                None => HashProgressView::Pending(
                    HashLookupView { stage: LookupStage::Dropping, ..m },
                    RequestView::DropCache { path: m.path },
                ),
            },
            _ => HashProgressView::Pending(
                HashLookupView { stage: LookupStage::Digesting, ..m },
                RequestView::Digest { path: m.path },
            ),
        },
        LookupStage::Dropping => HashProgressView::Pending(
            HashLookupView { stage: LookupStage::Digesting, ..m },
            RequestView::Digest { path: m.path },
        ),
        LookupStage::Digesting => match reply {
            ReplyView::Text(h) => HashProgressView::Pending(
                HashLookupView { stage: LookupStage::Writing, hash: h, ..m },
                RequestView::WriteCache { path: m.path, hash: h },
            ),
            _ => HashProgressView::Done(ReplyView::Failed(reply.reason_text())),
        },
        LookupStage::Writing => HashProgressView::Done(ReplyView::Text(m.hash)),
    }
}

/// Starts the search for the digest of the file at `local_path`.
pub fn get_file_hash(local_path: &String) -> (p: HashProgress)
    ensures
        p@ == lookup_start(local_path@),
{
    HashProgress::Pending(
        HashLookup { stage: LookupStage::Cache, path: local_path.clone(), hash: String::new() },
        Request::ReadCache { path: local_path.clone() },
    )
}

impl HashLookup {
    fn digest(self) -> (p: HashProgress)
        ensures
            p@ == HashProgressView::Pending(
                HashLookupView { stage: LookupStage::Digesting, ..self@ },
                RequestView::Digest { path: self@.path },
            ),
    {
        let request = Request::Digest { path: self.path.clone() };
        HashProgress::Pending(
            HashLookup { stage: LookupStage::Digesting, path: self.path, hash: self.hash },
            request,
        )
    }

    /// Goes on with the answer to the last request.
    pub fn step(self, reply: Reply) -> (p: HashProgress)
        ensures
            p@ == lookup_next(self@, reply@),
    {
        match self.stage {
            LookupStage::Cache => match reply {
                Reply::Cache(entry, now) => match get_cached_hash(&entry, now) {
                    Some(h) => HashProgress::Done(Reply::Text(h)),
                    None => {
                        let request = Request::DropCache { path: self.path.clone() };
                        HashProgress::Pending(
                            HashLookup {
                                stage: LookupStage::Dropping,
                                path: self.path,
                                hash: self.hash,
                            },
                            request,
                        )
                    },
                },
                _ => self.digest(),
            },
            LookupStage::Dropping => self.digest(),
            LookupStage::Digesting => match reply {
                Reply::Text(h) => {
                    let request = Request::WriteCache { path: self.path.clone(), hash: h.clone() };
                    HashProgress::Pending(
                        HashLookup { stage: LookupStage::Writing, path: self.path, hash: h },
                        request,
                    )
                },
                other => HashProgress::Done(Reply::Failed(other.reason_text())),
            },
            LookupStage::Writing => HashProgress::Done(Reply::Text(self.hash)),
        }
    }
}

} // verus!
