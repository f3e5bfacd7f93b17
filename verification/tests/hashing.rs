// Hashing, the hash cache and the search for a digest.

use dvs::cache::{get_cached_hash, write_hash_to_cache, CacheData, ModTime};
use dvs::exchange::{Reply, Request};
use dvs::hash::{
    get_file_hash, hash_file_with_blake3, hash_file_with_blake3_direct, maybe_memmap_file,
    HashProgress, StreamHasher, MEMMAP_THRESHOLD, STREAM_BUFFER_LEN,
};

fn s(text: &str) -> String {
    String::from(text)
}

fn ask(progress: HashProgress) -> (dvs::hash::HashLookup, Request) {
    match progress {
        HashProgress::Pending(lookup, request) => (lookup, request),
        HashProgress::Done(reply) => panic!("done with {:?}", reply),
    }
}

fn done(progress: HashProgress) -> Reply {
    match progress {
        HashProgress::Done(reply) => reply,
        HashProgress::Pending(_, request) => panic!("asks {:?}", request),
    }
}

#[test]
fn digest_of_nothing() {
    assert_eq!(
        hash_file_with_blake3(&[]),
        "af1349b9f5f9a1a6a0404dea36dcc9499bcb25c9adc112b7cc9a93cae41f3262"
    );
    assert_eq!(
        hash_file_with_blake3_direct(&Vec::new()),
        "af1349b9f5f9a1a6a0404dea36dcc9499bcb25c9adc112b7cc9a93cae41f3262"
    );
}

#[test]
fn digest_is_sixty_four_hex_digits() {
    let h = hash_file_with_blake3(b"some bytes");
    assert_eq!(h.len(), 64);
    assert!(h.chars().all(|c| c.is_ascii_digit() || ('a'..='f').contains(&c)));
}

#[test]
fn digest_agrees_with_blake3() {
    let data: Vec<u8> = (0..50000u32).map(|i| (i % 251) as u8).collect();
    assert_eq!(hash_file_with_blake3(&data), blake3::hash(&data).to_hex().to_string());
}

#[test]
fn digest_depends_on_the_bytes() {
    assert_ne!(hash_file_with_blake3(b"a"), hash_file_with_blake3(b"b"));
    assert_ne!(hash_file_with_blake3(b"a"), hash_file_with_blake3(b""));
}

#[test]
fn pieces_hash_as_the_whole() {
    let data: Vec<u8> = (0..40000u32).map(|i| (i * 7 % 256) as u8).collect();
    let whole = hash_file_with_blake3(&data);
    for size in [1usize, 7, 1024, STREAM_BUFFER_LEN, 39999, 40000, 50000] {
        let pieces: Vec<Vec<u8>> = data.chunks(size).map(|c| c.to_vec()).collect();
        assert_eq!(hash_file_with_blake3_direct(&pieces), whole);
    }
}

#[test]
fn stream_hasher_takes_pieces_in_order() {
    let mut h = StreamHasher::new();
    h.update(b"hello ");
    h.update_parallel(b"world");
    assert_eq!(h.finish(), hash_file_with_blake3(b"hello world"));
    let mut other = StreamHasher::new();
    other.update(b"world");
    other.update(b"hello ");
    assert_ne!(other.finish(), hash_file_with_blake3(b"hello world"));
}

#[test]
fn stream_hasher_can_be_asked_twice() {
    let mut h = StreamHasher::new();
    h.update(b"abc");
    let first = h.finish();
    assert_eq!(h.finish(), first);
    h.update(b"def");
    assert_eq!(h.finish(), hash_file_with_blake3(b"abcdef"));
}

#[test]
fn mapping_is_for_large_regular_files() {
    assert_eq!(MEMMAP_THRESHOLD, 16 * 1024);
    assert_eq!(STREAM_BUFFER_LEN, 16384);
    assert!(maybe_memmap_file(true, 16384));
    assert!(maybe_memmap_file(true, 1 << 30));
    assert!(!maybe_memmap_file(true, 16383));
    assert!(!maybe_memmap_file(true, 0));
    assert!(!maybe_memmap_file(false, 1 << 20));
    assert!(!maybe_memmap_file(true, u64::MAX));
    assert!(maybe_memmap_file(true, isize::MAX as u64));
    assert!(!maybe_memmap_file(true, isize::MAX as u64 + 1));
}

#[test]
fn cache_entry_answers_at_its_own_time_only() {
    let t = ModTime { secs: 1700000000, nanos: 123456789 };
    let entry = write_hash_to_cache(&s("abc123"), t);
    assert_eq!(entry, CacheData { hash: s("abc123"), modification_time: Some(t) });
    assert_eq!(get_cached_hash(&entry, t), Some(s("abc123")));
    assert_eq!(get_cached_hash(&entry, ModTime { secs: 1700000000, nanos: 123456790 }), None);
    assert_eq!(get_cached_hash(&entry, ModTime { secs: 1700000001, nanos: 123456789 }), None);
}

#[test]
fn cache_entry_without_time_never_answers() {
    let entry = CacheData { hash: s("abc123"), modification_time: None };
    assert_eq!(get_cached_hash(&entry, ModTime { secs: 0, nanos: 0 }), None);
}

#[test]
fn lookup_trusts_a_valid_entry() {
    let t = ModTime { secs: 5, nanos: 0 };
    let (lookup, request) = ask(get_file_hash(&s("/repo/a.bin")));
    assert_eq!(request, Request::ReadCache { path: s("/repo/a.bin") });
    let reply = done(lookup.step(Reply::Cache(write_hash_to_cache(&s("h1"), t), t)));
    assert_eq!(reply, Reply::Text(s("h1")));
}

#[test]
fn lookup_drops_a_stale_entry_and_hashes() {
    let (lookup, _) = ask(get_file_hash(&s("/repo/a.bin")));
    let stale = write_hash_to_cache(&s("old"), ModTime { secs: 5, nanos: 0 });
    let (lookup, request) = ask(lookup.step(Reply::Cache(stale, ModTime { secs: 6, nanos: 0 })));
    assert_eq!(request, Request::DropCache { path: s("/repo/a.bin") });
    let (lookup, request) = ask(lookup.step(Reply::Failed(s("could not delete"))));
    assert_eq!(request, Request::Digest { path: s("/repo/a.bin") });
    let (lookup, request) = ask(lookup.step(Reply::Text(s("new"))));
    assert_eq!(request, Request::WriteCache { path: s("/repo/a.bin"), hash: s("new") });
    assert_eq!(done(lookup.step(Reply::Failed(s("cache is read-only")))), Reply::Text(s("new")));
}

#[test]
fn lookup_without_cache_hashes() {
    let (lookup, _) = ask(get_file_hash(&s("f")));
    let (lookup, request) = ask(lookup.step(Reply::Failed(s("no cache"))));
    assert_eq!(request, Request::Digest { path: s("f") });
    let (lookup, _) = ask(lookup.step(Reply::Text(s("h"))));
    assert_eq!(done(lookup.step(Reply::Done)), Reply::Text(s("h")));
}

#[test]
fn lookup_hands_on_a_failed_hash() {
    let (lookup, _) = ask(get_file_hash(&s("f")));
    let (lookup, _) = ask(lookup.step(Reply::Failed(s("no cache"))));
    let reply = done(lookup.step(Reply::Failed(s("Permission denied (os error 13)"))));
    assert_eq!(reply, Reply::Failed(s("Permission denied (os error 13)")));
}

#[test]
fn cache_entry_lies_under_the_project_name() {
    assert_eq!(
        dvs::cache::get_cache_path(&s("/home/me/proj"), &s("/home/me/proj/data/a.bin")),
        Ok(s("proj/data/a.bin"))
    );
    assert_eq!(
        dvs::cache::get_cache_path(&s("/"), &s("/a.bin")),
        Err(s("project name not found"))
    );
    assert_eq!(
        dvs::cache::get_cache_path(&s("/home/me/proj"), &s("a.bin")),
        Err(s("relative path not found"))
    );
}
