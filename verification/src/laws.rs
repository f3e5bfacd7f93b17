//! What holds of the engine when it is run against the reference
//! environment.

use vstd::prelude::*;
use crate::path::{lies_inside, parent_of, joined};
use crate::outcome::{Outcome, Status};
use crate::error::{FileErrorType, FileErrorView};
use crate::config::SettingsView;
use crate::exchange::{RequestView, ReplyView};
use crate::file::{MetadataView, sidecar_path_of, sidecar_suffix, is_sidecar_path};
use crate::repo::diff_paths_text;
use crate::hash::{blake3_hex, storage_path_of};
use crate::copy::{is_dot_path, CopyStage};
use crate::add::{AddProgressView, AddFileView, AddedFileView, AddStage, add_next, add_start};
use crate::get::{GetProgressView, GetFileView, RetrievedFileView, GetStage, get_next, get_start};
use crate::status::{StatusProgressView, StatusFileView, FileStatusView, StatusStage, status_next,
    status_start};
use crate::model::{World, add_run, get_run, status_run, added, got, asked, enough};
use crate::cache::{CacheDataView, ModTime};
use crate::hash::{HashProgressView, lookup_next, lookup_start};
use crate::ignore::{IgnoreProgressView, ignore_next, ignore_start, ignore_plan, with_entry,
    has_entry};

verus! {

/// One request of an adding, answered by the world.
pub open spec fn add_advance(p: AddProgressView, w: World) -> (AddProgressView, World) {
    match p {
        AddProgressView::Done(_) => (p, w),
        AddProgressView::Pending(m, request) => (
            add_next(m, w.respond(request).1),
            w.respond(request).0,
        ),
    }
}

/// `n` requests of an adding, answered by the world.
pub open spec fn add_after(p: AddProgressView, w: World, n: nat) -> (AddProgressView, World)
    decreases n,
{
    if n == 0 {
        (p, w)
    } else {
        add_after(add_advance(p, w).0, add_advance(p, w).1, (n - 1) as nat)
    }
}

proof fn lemma_add_run_unroll(p: AddProgressView, w: World, fuel: nat, n: nat)
    requires
        n <= fuel,
    ensures
        add_run(p, w, fuel) == add_run(
            add_after(p, w, n).0,
            add_after(p, w, n).1,
            (fuel - n) as nat,
        ),
    decreases n,
{
    if n > 0 {
        lemma_add_run_unroll(add_advance(p, w).0, add_advance(p, w).1, (fuel - 1) as nat, (n - 1) as nat);
    }
}

/// The place of a stored object is never `.` or `..`: it holds a separator.
pub proof fn lemma_storage_path_is_no_dot(storage_dir: Seq<char>, hash: Seq<char>)
    requires
        hash.len() >= 2,
    ensures
        !is_dot_path(storage_path_of(storage_dir, hash)),
{
    reveal_strlit(".");
    reveal_strlit("..");
    let first = hash.take(2);
    let rest = hash.skip(2);
    let shard = joined(storage_dir, first);
    let place = joined(shard, rest);
    assert(first.len() == 2);
    assert(shard.len() >= 2);
    assert("."@.len() == 1 && "."@[0] == '.');
    assert(".."@.len() == 2 && ".."@[0] == '.' && ".."@[1] == '.');
    if rest.len() > 0 && rest[0] == '/' {
        assert(place == rest);
        assert(place[0] == '/');
    } else if shard.last() != '/' {
        assert(place == shard.push('/') + rest);
        assert(place.len() >= 3);
    } else {
        assert(place == shard + rest);
        assert(place[shard.len() - 1] == '/');
        assert(shard.len() - 1 >= 1);
    }
}

/// Whether an error is one of the copy into the store.
pub open spec fn is_store_failure(kind: FileErrorType) -> bool {
    kind == FileErrorType::FileNotCopied || kind == FileErrorType::PermissionsNotSet || kind
        == FileErrorType::GroupNotSet
}

/// Whether an add of `input` in `w` is owed its success: the input is a
/// file in the repository with a path relative to it, its digest is long
/// enough to name a place, the ignore file beside it can be named, and its
/// sidecar can be written, and its place in the store is taken, or will be by
/// its sidecar, or takes a copy with its permission bits and group.
pub open spec fn addable(w: World, settings: SettingsView, input: Seq<char>) -> bool {
    let hash = blake3_hex(w.files[input]);
    let place = storage_path_of(settings.storage_dir, hash);
    &&& w.files.contains_key(input)
    &&& !w.dirs.contains(input)
    &&& lies_inside(input, settings.git_dir)
    &&& diff_paths_text(input, settings.git_dir).is_some()
    &&& hash.len() >= 2
    &&& !is_dot_path(input)
    &&& parent_of(input) matches Some(dir) && diff_paths_text(input, dir).is_some()
    &&& !w.record_locked.contains(sidecar_path_of(input))
    &&& (w.has(place) || place == sidecar_path_of(input) || w.takes_copy(settings, place))
}

/// Whether an error is one that comes before anything is written.
pub open spec fn is_early_failure(kind: FileErrorType) -> bool {
    kind == FileErrorType::AbsolutePathNotFound || kind == FileErrorType::RelativePathNotFound
        || kind == FileErrorType::FileNotInGitRepo || kind == FileErrorType::PathIsDirectory
        || kind == FileErrorType::HashNotFound || kind == FileErrorType::SizeNotFound || kind
        == FileErrorType::OwnerNotFound || kind == FileErrorType::MetadataNotSaved
}

/// The world once the entry of `input` in the ignore file beside it has
/// been seen to.
pub open spec fn ignores_after(w: World, input: Seq<char>) -> Map<Seq<char>, Seq<char>> {
    match ignore_plan(input, Ok(input)) {
        Ok((path, entry)) => w.ignores.insert(path, with_entry(w.ignore_text(path), entry)),
        Err(_) => w.ignores,
    }
}

/// The sidecar record that an add of `input` writes in `w`.
pub open spec fn record_of(w: World, message: Seq<char>, input: Seq<char>) -> MetadataView {
    MetadataView {
        blake3_checksum: blake3_hex(w.files[input]),
        file_size_bytes: w.files[input].len() as u64,
        time_stamp: w.now,
        message,
        saved_by: w.owner,
    }
}

/// What an add does, as a statement about one add in one world.
///
/// It ends. It never changes what is a directory or what can be written.
/// An error carries the input.
///
/// Where it succeeds, the input was a file in the repository, the digest
/// reported is that of its bytes, and afterwards the sidecar holds that
/// digest. Where the sidecar held the digest before, nothing at all is
/// changed. Otherwise the sidecar is written, the ignore file beside the
/// input has the input's entry, and something lies at the digest's place in
/// the store. A `Present` add leaves files, permission bits and groups
/// alone. A `Copied` add puts the input's bytes at the digest's place, where
/// nothing lay before, with the configured permission bits and group, and
/// leaves every other file, mode and group alone.
///
/// In strict mode neither the sidecar nor anything at the digest's place is
/// left behind a failure of the copy. An add that fails before it writes,
/// up to a sidecar that cannot be written, changes nothing. And an add that
/// is owed its success succeeds.
pub open spec fn add_effect(
    w: World,
    settings: SettingsView,
    message: Seq<char>,
    strict: bool,
    input: Seq<char>,
) -> bool {
    let (r, w2) = added(w, settings, message, strict, input);
    let sidecar = sidecar_path_of(input);
    let hash = blake3_hex(w.files[input]);
    let place = storage_path_of(settings.storage_dir, hash);
    &&& r is Some
    &&& w2.dirs == w.dirs
    &&& w2.sealed == w.sealed
    &&& w2.mode_locked == w.mode_locked
    &&& w2.group_locked == w.group_locked
    &&& w2.record_locked == w.record_locked
    &&& w2.owner == w.owner
    &&& w2.now == w.now
    &&& (r matches Some(Ok(a)) ==> {
        &&& w.files.contains_key(input)
        &&& !w.dirs.contains(input)
        &&& lies_inside(input, settings.git_dir)
        &&& hash.len() >= 2
        &&& a.blake3_checksum == hash
        &&& a.absolute_path == input
        &&& diff_paths_text(input, settings.git_dir) == Some(a.relative_path)
        &&& (a.outcome == Outcome::Copied || a.outcome == Outcome::Present)
        &&& w2.sidecars.contains_key(sidecar)
        &&& w2.sidecars[sidecar].blake3_checksum == hash
        &&& (if w.sidecars.contains_key(sidecar) && w.sidecars[sidecar].blake3_checksum
            == hash {
            &&& w2 == w
            &&& a.outcome == Outcome::Present
            &&& a.file_size_bytes == w.sidecars[sidecar].file_size_bytes
        } else {
            &&& w2.sidecars == w.sidecars.insert(sidecar, record_of(w, message, input))
            &&& w2.ignores == ignores_after(w, input)
            &&& w2.has(place)
            &&& a.file_size_bytes == w.files[input].len() as u64
            &&& (a.outcome == Outcome::Present ==> {
                &&& w2.files == w.files
                &&& w2.modes == w.modes
                &&& w2.groups == w.groups
            })
            &&& (a.outcome == Outcome::Copied ==> {
                &&& w2.files == w.files.insert(place, w.files[input])
                &&& w2.modes == w.modes.insert(place, settings.permissions)
                &&& w2.groups == w.groups_with(settings, place)
                &&& !w.has(place)
                &&& place != sidecar
            })
        })
    })
    &&& (r matches Some(Err(e)) ==> {
        &&& e.input == input
        &&& (strict && is_store_failure(e.error) ==> !w2.sidecars.contains_key(sidecar)
            && !w2.files.contains_key(place))
        &&& (is_early_failure(e.error) ==> w2 == w)
        &&& !addable(w, settings, input)
    })
}

/// Whether an add of `input` in `w` comes as far as the store: the input is
/// a file in the repository with a path relative to it and a digest that
/// names a place, its sidecar does not hold that digest yet and can be
/// written, and the ignore file beside it can be named.
pub open spec fn reaches_store(w: World, settings: SettingsView, input: Seq<char>) -> bool {
    let hash = blake3_hex(w.files[input]);
    let sidecar = sidecar_path_of(input);
    &&& w.files.contains_key(input)
    &&& !w.dirs.contains(input)
    &&& lies_inside(input, settings.git_dir)
    &&& diff_paths_text(input, settings.git_dir).is_some()
    &&& hash.len() >= 2
    &&& !(w.sidecars.contains_key(sidecar) && w.sidecars[sidecar].blake3_checksum == hash)
    &&& !w.record_locked.contains(sidecar)
    &&& ignore_plan(input, Ok(input)) is Ok
}

#[verifier::rlimit(100)]
proof fn lemma_add_effect_at_the_store(
    w: World,
    settings: SettingsView,
    message: Seq<char>,
    strict: bool,
    input: Seq<char>,
)
    requires
        reaches_store(w, settings, input),
    ensures
        add_effect(w, settings, message, strict, input),
{
    let p0 = add_start(settings, message, strict, input);
    lemma_add_run_unroll(p0, w, enough(), 14);
    reveal_with_fuel(add_after, 15);
    lemma_storage_path_is_no_dot(settings.storage_dir, blake3_hex(w.files[input]));
    assert(add_after(p0, w, 14).0 is Done);
}

#[verifier::rlimit(100)]
proof fn lemma_add_effect_before_the_store(
    w: World,
    settings: SettingsView,
    message: Seq<char>,
    strict: bool,
    input: Seq<char>,
)
    requires
        !reaches_store(w, settings, input),
    ensures
        add_effect(w, settings, message, strict, input),
{
    let p0 = add_start(settings, message, strict, input);
    lemma_add_run_unroll(p0, w, enough(), 8);
    reveal_with_fuel(add_after, 9);
    assert(add_after(p0, w, 8).0 is Done);
}

/// What an add does: `add_effect` holds of every add in every world.
pub proof fn lemma_add_effect(
    w: World,
    settings: SettingsView,
    message: Seq<char>,
    strict: bool,
    input: Seq<char>,
)
    ensures
        add_effect(w, settings, message, strict, input),
{
    if reaches_store(w, settings, input) {
        lemma_add_effect_at_the_store(w, settings, message, strict, input);
    } else {
        lemma_add_effect_before_the_store(w, settings, message, strict, input);
    }
}

/// An add of a file whose sidecar holds the digest of its bytes is
/// `Present` and changes nothing.
pub proof fn lemma_add_of_current_file(
    w: World,
    settings: SettingsView,
    message: Seq<char>,
    strict: bool,
    input: Seq<char>,
)
    requires
        w.files.contains_key(input),
        !w.dirs.contains(input),
        lies_inside(input, settings.git_dir),
        diff_paths_text(input, settings.git_dir).is_some(),
        blake3_hex(w.files[input]).len() >= 2,
        w.sidecars.contains_key(sidecar_path_of(input)),
        w.sidecars[sidecar_path_of(input)].blake3_checksum == blake3_hex(w.files[input]),
    ensures
        added(w, settings, message, strict, input) == (
            Some(
                Ok::<AddedFileView, FileErrorView>(
                    AddedFileView {
                        relative_path: diff_paths_text(input, settings.git_dir).unwrap(),
                        outcome: Outcome::Present,
                        file_size_bytes: w.sidecars[sidecar_path_of(input)].file_size_bytes,
                        blake3_checksum: blake3_hex(w.files[input]),
                        absolute_path: input,
                    },
                ),
            ),
            w,
        ),
{
    let p0 = add_start(settings, message, strict, input);
    lemma_add_run_unroll(p0, w, enough(), 3);
    reveal_with_fuel(add_after, 4);
    assert(add_after(p0, w, 3).0 is Done);
}

/// Idempotence of add: after an add that succeeded, an add of the same file,
/// unchanged, is `Present`, reports the same digest and paths, and changes
/// nothing; so the sidecar holds what it held.
pub proof fn lemma_add_twice(
    w: World,
    settings: SettingsView,
    message: Seq<char>,
    strict: bool,
    again_message: Seq<char>,
    again_strict: bool,
    input: Seq<char>,
)
    requires
        added(w, settings, message, strict, input).0 matches Some(Ok(_)),
    ensures
        ({
            let (first, w1) = added(w, settings, message, strict, input);
            let (second, w2) = added(w1, settings, again_message, again_strict, input);
            &&& second matches Some(Ok(b))
            &&& b.outcome == Outcome::Present
            &&& b.blake3_checksum == first->Some_0->Ok_0.blake3_checksum
            &&& b.relative_path == first->Some_0->Ok_0.relative_path
            &&& b.absolute_path == first->Some_0->Ok_0.absolute_path
            &&& w2 == w1
        }),
{
    lemma_add_effect(w, settings, message, strict, input);
    let w1 = added(w, settings, message, strict, input).1;
    assert(w1.files.contains_key(input));
    assert(w1.files[input] == w.files[input]);
    lemma_add_of_current_file(w1, settings, again_message, again_strict, input);
}

/// Content addressing: of two files with the same bytes, added one after the
/// other, the second gets the digest of the first, is `Present`, and leaves
/// every file, stored objects included, as the first add left it. The first
/// is taken to be new: it has no sidecar before.
pub proof fn lemma_same_bytes_one_object(
    w: World,
    settings: SettingsView,
    message: Seq<char>,
    strict: bool,
    first_input: Seq<char>,
    second_input: Seq<char>,
)
    requires
        w.files.contains_key(first_input),
        w.files.contains_key(second_input),
        w.files[first_input] == w.files[second_input],
        !w.sidecars.contains_key(sidecar_path_of(first_input)),
        added(w, settings, message, strict, first_input).0 matches Some(Ok(_)),
        added(
            added(w, settings, message, strict, first_input).1,
            settings,
            message,
            strict,
            second_input,
        ).0 matches Some(Ok(_)),
    ensures
        ({
            let (first, w1) = added(w, settings, message, strict, first_input);
            let (second, w2) = added(w1, settings, message, strict, second_input);
            &&& second->Some_0->Ok_0.blake3_checksum
                == first->Some_0->Ok_0.blake3_checksum
            &&& second->Some_0->Ok_0.outcome == Outcome::Present
            &&& w2.files == w1.files
        }),
{
    lemma_add_effect(w, settings, message, strict, first_input);
    let w1 = added(w, settings, message, strict, first_input).1;
    assert(w1.files.contains_key(second_input));
    assert(w1.files[second_input] == w.files[second_input]);
    lemma_add_effect(w1, settings, message, strict, second_input);
}

/// An add of a directory that lies in the repository fails with
/// `PathIsDirectory` and changes nothing.
pub proof fn lemma_add_refuses_directory(
    w: World,
    settings: SettingsView,
    message: Seq<char>,
    strict: bool,
    input: Seq<char>,
)
    requires
        w.dirs.contains(input),
        lies_inside(input, settings.git_dir),
        diff_paths_text(input, settings.git_dir).is_some(),
    ensures
        added(w, settings, message, strict, input).0 matches Some(Err(e)) && e.error
            == FileErrorType::PathIsDirectory,
        added(w, settings, message, strict, input).1 == w,
{
    let p0 = add_start(settings, message, strict, input);
    lemma_add_run_unroll(p0, w, enough(), 1);
    reveal_with_fuel(add_after, 2);
    assert(add_after(p0, w, 1).0 is Done);
}

/// An add of anything that exists, has a path relative to the repository
/// and lies outside the repository, a directory too, fails with
/// `FileNotInGitRepo` and changes nothing.
pub proof fn lemma_add_refuses_what_lies_outside(
    w: World,
    settings: SettingsView,
    message: Seq<char>,
    strict: bool,
    input: Seq<char>,
)
    requires
        w.has(input),
        diff_paths_text(input, settings.git_dir).is_some(),
        !lies_inside(input, settings.git_dir),
    ensures
        added(w, settings, message, strict, input).0 matches Some(Err(e)) && e.error
            == FileErrorType::FileNotInGitRepo && e.input == input,
        added(w, settings, message, strict, input).1 == w,
{
    let p0 = add_start(settings, message, strict, input);
    lemma_add_run_unroll(p0, w, enough(), 1);
    reveal_with_fuel(add_after, 2);
    assert(add_after(p0, w, 1).0 is Done);
}

/// What a copy to `place` fails with, if the world refuses one of its three
/// requests: the copy of the bytes, the permission bits, or the group.
pub open spec fn store_refusal(w: World, settings: SettingsView, place: Seq<char>) -> Option<
    FileErrorType,
> {
    if w.sealed.contains(place) {
        Some(FileErrorType::FileNotCopied)
    } else if w.mode_locked.contains(place) {
        Some(FileErrorType::PermissionsNotSet)
    } else if settings.group is Some && w.group_locked.contains(place) {
        Some(FileErrorType::GroupNotSet)
    } else {
        None
    }
}

/// Strict rollback: where the copy into the store fails, because the bytes
/// cannot be written to the object's place, or the copy cannot be given its
/// permission bits or its group, the add ends with the error of the request
/// that failed. A strict add then leaves neither the sidecar nor anything
/// at the object's place. An add that is not strict leaves the sidecar that
/// it wrote, and the copy as far as it was made.
#[verifier::rlimit(100)]
pub proof fn lemma_failed_copy_is_rolled_back(
    w: World,
    settings: SettingsView,
    message: Seq<char>,
    strict: bool,
    input: Seq<char>,
)
    requires
        w.files.contains_key(input),
        !w.dirs.contains(input),
        lies_inside(input, settings.git_dir),
        diff_paths_text(input, settings.git_dir).is_some(),
        blake3_hex(w.files[input]).len() >= 2,
        !is_dot_path(input),
        parent_of(input) matches Some(dir) && diff_paths_text(input, dir).is_some(),
        !w.sidecars.contains_key(sidecar_path_of(input)),
        !w.record_locked.contains(sidecar_path_of(input)),
        !w.has(storage_path_of(settings.storage_dir, blake3_hex(w.files[input]))),
        storage_path_of(settings.storage_dir, blake3_hex(w.files[input])) != sidecar_path_of(input),
        store_refusal(
            w,
            settings,
            storage_path_of(settings.storage_dir, blake3_hex(w.files[input])),
        ) is Some,
    ensures
        ({
            let (r, w2) = added(w, settings, message, strict, input);
            let place = storage_path_of(settings.storage_dir, blake3_hex(w.files[input]));
            &&& r matches Some(Err(e))
            &&& Some(e.error) == store_refusal(w, settings, place)
            &&& w2.sidecars.contains_key(sidecar_path_of(input)) == !strict
            &&& w2.files.contains_key(place) == (!strict && !w.sealed.contains(place))
        }),
{
    let p0 = add_start(settings, message, strict, input);
    lemma_add_run_unroll(p0, w, enough(), 14);
    reveal_with_fuel(add_after, 15);
    assert(add_after(p0, w, 14).0 is Done);
}

/// A sidecar that cannot be written fails the add with `MetadataNotSaved`,
/// and nothing is changed.
#[verifier::rlimit(100)]
pub proof fn lemma_unwritable_sidecar_fails_the_add(
    w: World,
    settings: SettingsView,
    message: Seq<char>,
    strict: bool,
    input: Seq<char>,
)
    requires
        w.files.contains_key(input),
        !w.dirs.contains(input),
        lies_inside(input, settings.git_dir),
        diff_paths_text(input, settings.git_dir).is_some(),
        blake3_hex(w.files[input]).len() >= 2,
        !w.sidecars.contains_key(sidecar_path_of(input)),
        w.record_locked.contains(sidecar_path_of(input)),
    ensures
        ({
            let (r, w2) = added(w, settings, message, strict, input);
            &&& r matches Some(Err(e))
            &&& e.error == FileErrorType::MetadataNotSaved
            &&& w2 == w
        }),
{
    let p0 = add_start(settings, message, strict, input);
    lemma_add_run_unroll(p0, w, enough(), 7);
    reveal_with_fuel(add_after, 8);
    assert(add_after(p0, w, 7).0 is Done);
}

/// The adds of a batch, one after the other, each in the world that the one
/// before it left: every file's result, in order, and the world at the end.
pub open spec fn added_all(
    w: World,
    settings: SettingsView,
    message: Seq<char>,
    strict: bool,
    inputs: Seq<Seq<char>>,
) -> (Seq<Option<Result<AddedFileView, FileErrorView>>>, World)
    decreases inputs.len(),
{
    if inputs.len() == 0 {
        (Seq::empty(), w)
    } else {
        let (r, w1) = added(w, settings, message, strict, inputs[0]);
        let (rest, w2) = added_all(w1, settings, message, strict, inputs.skip(1));
        (seq![r] + rest, w2)
    }
}

/// A batch has a result for every file: no file's failure ends it.
pub proof fn lemma_batch_has_every_slot(
    w: World,
    settings: SettingsView,
    message: Seq<char>,
    strict: bool,
    inputs: Seq<Seq<char>>,
)
    ensures
        added_all(w, settings, message, strict, inputs).0.len() == inputs.len(),
        forall|i: int|
            0 <= i < inputs.len() ==> (#[trigger] added_all(
                w,
                settings,
                message,
                strict,
                inputs,
            ).0[i]) is Some,
        added_all(w, settings, message, strict, inputs).1.dirs == w.dirs,
    decreases inputs.len(),
{
    if inputs.len() > 0 {
        lemma_add_effect(w, settings, message, strict, inputs[0]);
        let w1 = added(w, settings, message, strict, inputs[0]).1;
        lemma_batch_has_every_slot(w1, settings, message, strict, inputs.skip(1));
    }
}

/// Batch isolation: a directory among the inputs of a batch gets
/// `PathIsDirectory` in its own slot, and every other file gets the result,
/// and the world the end, that the batch without the directory gives.
pub proof fn lemma_directory_fails_alone(
    w: World,
    settings: SettingsView,
    message: Seq<char>,
    strict: bool,
    inputs: Seq<Seq<char>>,
    k: int,
)
    requires
        0 <= k < inputs.len(),
        w.dirs.contains(inputs[k]),
        lies_inside(inputs[k], settings.git_dir),
        diff_paths_text(inputs[k], settings.git_dir).is_some(),
    ensures
        ({
            let (results, w2) = added_all(w, settings, message, strict, inputs);
            let (others, w3) = added_all(w, settings, message, strict, inputs.remove(k));
            &&& results.len() == inputs.len()
            &&& results[k] matches Some(Err(e)) && e.error == FileErrorType::PathIsDirectory
            &&& results.remove(k) == others
            &&& w2 == w3
        }),
    decreases inputs.len(),
{
    lemma_batch_has_every_slot(w, settings, message, strict, inputs);
    let (r, w1) = added(w, settings, message, strict, inputs[0]);
    let (rest, w2) = added_all(w1, settings, message, strict, inputs.skip(1));
    if k == 0 {
        lemma_add_refuses_directory(w, settings, message, strict, inputs[0]);
        assert(inputs.remove(0) =~= inputs.skip(1));
        assert((seq![r] + rest).remove(0) =~= rest);
    } else {
        lemma_add_effect(w, settings, message, strict, inputs[0]);
        assert(inputs.skip(1)[k - 1] == inputs[k]);
        lemma_directory_fails_alone(w1, settings, message, strict, inputs.skip(1), k - 1);
        let shorter = inputs.remove(k);
        assert(shorter[0] == inputs[0]);
        assert(shorter.skip(1) =~= inputs.skip(1).remove(k - 1));
        let (others_rest, w3) = added_all(w1, settings, message, strict, shorter.skip(1));
        assert((seq![r] + rest).remove(k) =~= seq![r] + rest.remove(k - 1));
        assert((seq![r] + rest)[k] == rest[k - 1]);
    }
}

/// One request of an asking for the status, answered by the world.
pub open spec fn status_advance(p: StatusProgressView, w: World) -> (StatusProgressView, World) {
    match p {
        StatusProgressView::Done(_) => (p, w),
        StatusProgressView::Pending(m, request) => (
            status_next(m, w.respond(request).1),
            w.respond(request).0,
        ),
    }
}

/// `n` requests of an asking for the status, answered by the world.
pub open spec fn status_after(p: StatusProgressView, w: World, n: nat) -> (
    StatusProgressView,
    World,
)
    decreases n,
{
    if n == 0 {
        (p, w)
    } else {
        status_after(status_advance(p, w).0, status_advance(p, w).1, (n - 1) as nat)
    }
}

proof fn lemma_status_run_unroll(p: StatusProgressView, w: World, fuel: nat, n: nat)
    requires
        n <= fuel,
    ensures
        status_run(p, w, fuel) == status_run(
            status_after(p, w, n).0,
            status_after(p, w, n).1,
            (fuel - n) as nat,
        ),
    decreases n,
{
    if n > 0 {
        lemma_status_run_unroll(
            status_advance(p, w).0,
            status_advance(p, w).1,
            (fuel - 1) as nat,
            (n - 1) as nat,
        );
    }
}

/// The digest of the local copy of `input`, where it has one.
pub open spec fn local_digest(w: World, input: Seq<char>) -> Option<Seq<char>> {
    if w.files.contains_key(input) {
        Some(blake3_hex(w.files[input]))
    } else {
        None
    }
}

/// Asking for the status of a file ends and changes nothing. Of a file that
/// is no directory and has a sidecar it succeeds, reports what the sidecar
/// records, and classifies the file by whether anything lies at its path
/// and by the digest of its bytes.
pub proof fn lemma_status_effect(w: World, git_dir: Seq<char>, input: Seq<char>)
    ensures
        asked(w, git_dir, input).0 is Some,
        asked(w, git_dir, input).1 == w,
        !w.dirs.contains(input) && w.sidecars.contains_key(sidecar_path_of(input)) ==> {
            let record = w.sidecars[sidecar_path_of(input)];
            &&& asked(w, git_dir, input).0 matches Some(Ok(s))
            &&& s.status == crate::status::classify(
                w.has(input),
                local_digest(w, input),
                record.blake3_checksum,
            )
            &&& s.blake3_checksum == record.blake3_checksum
            &&& s.size == record.file_size_bytes
            &&& s.add_time == record.time_stamp
            &&& s.saved_by == record.saved_by
            &&& s.message == record.message
        },
{
    let p0 = status_start(git_dir, input);
    lemma_status_run_unroll(p0, w, enough(), 5);
    reveal_with_fuel(status_after, 6);
    assert(status_after(p0, w, 5).0 is Done);
}

/// Whether the asking succeeded with the status `status`.
pub open spec fn status_is(r: Option<Result<FileStatusView, FileErrorView>>, status: Status) -> bool {
    r matches Some(Ok(s)) && s.status == status
}

/// Status classification: a file that was just added is `Current`; with its
/// local copy deleted it is `Absent`; with other bytes in its local copy,
/// of another digest, it is `Unsynced`.
pub proof fn lemma_status_after_add(
    w: World,
    settings: SettingsView,
    message: Seq<char>,
    strict: bool,
    input: Seq<char>,
    other_bytes: Seq<u8>,
)
    requires
        added(w, settings, message, strict, input).0 matches Some(Ok(_)),
    ensures
        ({
            let w1 = added(w, settings, message, strict, input).1;
            let root = settings.git_dir;
            &&& status_is(asked(w1, root, input).0, Status::Current)
            &&& (!w1.sidecars.contains_key(input) ==> status_is(
                asked(w1.without_file(input), root, input).0,
                Status::Absent,
            ))
            &&& (blake3_hex(other_bytes) != blake3_hex(w.files[input]) ==> status_is(
                asked(w1.with_file(input, other_bytes), root, input).0,
                Status::Unsynced,
            ))
        }),
{
    lemma_add_effect(w, settings, message, strict, input);
    let w1 = added(w, settings, message, strict, input).1;
    assert(w1.files.contains_key(input));
    assert(w1.files[input] == w.files[input]);
    lemma_status_effect(w1, settings.git_dir, input);
    lemma_status_effect(w1.without_file(input), settings.git_dir, input);
    lemma_status_effect(w1.with_file(input, other_bytes), settings.git_dir, input);
}

/// One request of a getting, answered by the world.
pub open spec fn get_advance(p: GetProgressView, w: World) -> (GetProgressView, World) {
    match p {
        GetProgressView::Done(_) => (p, w),
        GetProgressView::Pending(m, request) => (
            get_next(m, w.respond(request).1),
            w.respond(request).0,
        ),
    }
}

/// `n` requests of a getting, answered by the world.
pub open spec fn get_after(p: GetProgressView, w: World, n: nat) -> (GetProgressView, World)
    decreases n,
{
    if n == 0 {
        (p, w)
    } else {
        get_after(get_advance(p, w).0, get_advance(p, w).1, (n - 1) as nat)
    }
}

proof fn lemma_get_run_unroll(p: GetProgressView, w: World, fuel: nat, n: nat)
    requires
        n <= fuel,
    ensures
        get_run(p, w, fuel) == get_run(
            get_after(p, w, n).0,
            get_after(p, w, n).1,
            (fuel - n) as nat,
        ),
    decreases n,
{
    if n > 0 {
        lemma_get_run_unroll(get_advance(p, w).0, get_advance(p, w).1, (fuel - 1) as nat, (n - 1) as nat);
    }
}

/// Whether a get of `input` can be served: the input is no directory, its
/// sidecar exists and lies in the repository, and the input has a path
/// relative to the repository.
pub open spec fn gettable(w: World, settings: SettingsView, input: Seq<char>) -> bool {
    &&& !w.dirs.contains(input)
    &&& w.sidecars.contains_key(sidecar_path_of(input))
    &&& lies_inside(sidecar_path_of(input), settings.git_dir)
    &&& diff_paths_text(input, settings.git_dir).is_some()
}

/// A get of a file whose local copy is missing, or has another digest than
/// its sidecar, copies the stored object into place: it is `Copied`, the
/// local copy has the bytes of the stored object, and the digest reported
/// is theirs. Nothing else is changed but the permission bits and the group
/// of the local copy, which are the configured ones. The local copy is taken
/// to be one that can be written and given them.
#[verifier::rlimit(100)]
pub proof fn lemma_get_restores(w: World, settings: SettingsView, input: Seq<char>)
    requires
        gettable(w, settings, input),
        w.sidecars[sidecar_path_of(input)].blake3_checksum.len() >= 2,
        w.files.contains_key(
            storage_path_of(
                settings.storage_dir,
                w.sidecars[sidecar_path_of(input)].blake3_checksum,
            ),
        ),
        w.takes_copy(settings, input),
        local_digest(w, input) != Some(w.sidecars[sidecar_path_of(input)].blake3_checksum),
    ensures
        ({
            let (r, w2) = got(w, settings, input);
            let place = storage_path_of(
                settings.storage_dir,
                w.sidecars[sidecar_path_of(input)].blake3_checksum,
            );
            &&& r == Some(
                Ok::<RetrievedFileView, FileErrorView>(
                    RetrievedFileView {
                        relative_path: diff_paths_text(input, settings.git_dir).unwrap(),
                        outcome: Outcome::Copied,
                        size: w.files[place].len() as u64,
                        absolute_path: input,
                        blake3_checksum: blake3_hex(w.files[place]),
                    },
                ),
            )
            &&& w2.files == w.files.insert(input, w.files[place])
            &&& w2.sidecars == w.sidecars
            &&& w2.dirs == w.dirs
            &&& w2.sealed == w.sealed
            &&& w2.modes == w.modes.insert(input, settings.permissions)
            &&& w2.groups == w.groups_with(settings, input)
            &&& w2.ignores == w.ignores
        }),
{
    let p0 = get_start(settings, input);
    let hash = w.sidecars[sidecar_path_of(input)].blake3_checksum;
    lemma_storage_path_is_no_dot(settings.storage_dir, hash);
    lemma_get_run_unroll(p0, w, enough(), 10);
    reveal_with_fuel(get_after, 11);
    assert(get_after(p0, w, 10).0 is Done);
}

/// A get of a file whose local copy has the digest that its sidecar holds
/// is `Present` and changes nothing.
#[verifier::rlimit(100)]
pub proof fn lemma_get_of_current_file(w: World, settings: SettingsView, input: Seq<char>)
    requires
        gettable(w, settings, input),
        w.sidecars[sidecar_path_of(input)].blake3_checksum.len() > 0,
        local_digest(w, input) == Some(w.sidecars[sidecar_path_of(input)].blake3_checksum),
    ensures
        got(w, settings, input) == (
            Some(
                Ok::<RetrievedFileView, FileErrorView>(
                    RetrievedFileView {
                        relative_path: diff_paths_text(input, settings.git_dir).unwrap(),
                        outcome: Outcome::Present,
                        size: w.files[input].len() as u64,
                        absolute_path: input,
                        blake3_checksum: blake3_hex(w.files[input]),
                    },
                ),
            ),
            w,
        ),
{
    let p0 = get_start(settings, input);
    lemma_get_run_unroll(p0, w, enough(), 7);
    reveal_with_fuel(get_after, 8);
    assert(get_after(p0, w, 7).0 is Done);
}

/// The sidecar of a file in a repository lies in the repository, unless the
/// file is the root itself.
pub proof fn lemma_sidecar_lies_inside(input: Seq<char>, root: Seq<char>)
    requires
        lies_inside(input, root),
        input != root,
    ensures
        lies_inside(sidecar_path_of(input), root),
{
    if !is_sidecar_path(input) {
        let sidecar = input + sidecar_suffix();
        assert(sidecar.take(root.len() as int) =~= input.take(root.len() as int));
        if input.len() == root.len() {
            assert(input.take(root.len() as int) =~= input);
        }
    }
}

/// Round trip: a new file is added, its local copy is deleted, and it is
/// got: the get is `Copied` and the local copy is there again with the
/// digest that the add reported; with the bytes of before, where the add
/// was the one to store them. A further get is `Present` and changes
/// nothing.
///
/// The world is taken to be in order: the repository root is a directory;
/// at the place of the file's digest in the store lies no directory, no
/// sidecar and not the file itself, and what lies there, if anything, has
/// that digest; and the local copy can be written and given its permission
/// bits and group, which the get gives it.
pub proof fn lemma_round_trip(
    w: World,
    settings: SettingsView,
    message: Seq<char>,
    strict: bool,
    input: Seq<char>,
)
    requires
        added(w, settings, message, strict, input).0 matches Some(Ok(_)),
        !w.sidecars.contains_key(sidecar_path_of(input)),
        w.dirs.contains(settings.git_dir),
        w.takes_copy(settings, input),
        ({
            let hash = blake3_hex(w.files[input]);
            let place = storage_path_of(settings.storage_dir, hash);
            &&& !w.dirs.contains(place)
            &&& !w.sidecars.contains_key(place)
            &&& place != input
            &&& place != sidecar_path_of(input)
            &&& (w.files.contains_key(place) ==> blake3_hex(w.files[place]) == hash)
        }),
    ensures
        ({
            let hash = blake3_hex(w.files[input]);
            let place = storage_path_of(settings.storage_dir, hash);
            let w1 = added(w, settings, message, strict, input).1;
            let (first, w2) = got(w1.without_file(input), settings, input);
            let (second, w3) = got(w2, settings, input);
            &&& first matches Some(Ok(g)) && g.outcome == Outcome::Copied && g.blake3_checksum
                == hash
            &&& w2.files.contains_key(input)
            &&& blake3_hex(w2.files[input]) == hash
            &&& (!w.has(place) ==> w2.files[input] == w.files[input])
            &&& w2.modes.contains_key(input) && w2.modes[input] == settings.permissions
            &&& (settings.group matches Some(g) ==> w2.groups.contains_key(input)
                && w2.groups[input] == g)
            &&& second matches Some(Ok(g)) && g.outcome == Outcome::Present && g.blake3_checksum
                == hash
            &&& w3 == w2
        }),
{
    lemma_add_effect(w, settings, message, strict, input);
    let hash = blake3_hex(w.files[input]);
    let place = storage_path_of(settings.storage_dir, hash);
    let w1 = added(w, settings, message, strict, input).1;
    lemma_sidecar_lies_inside(input, settings.git_dir);
    let deleted = w1.without_file(input);
    assert(w1.files.contains_key(place));
    assert(blake3_hex(w1.files[place]) == hash);
    assert(deleted.files.contains_key(place));
    assert(deleted.files[place] == w1.files[place]);
    assert(!deleted.files.contains_key(input));
    lemma_get_restores(deleted, settings, input);
    let w2 = got(deleted, settings, input).1;
    assert(w2.files.contains_key(input));
    assert(w2.files[input] == w1.files[place]);
    lemma_get_of_current_file(w2, settings, input);
}

/// How far an adding has come.
pub open spec fn add_rank(stage: AddStage) -> nat {
    match stage {
        AddStage::Locating => 0,
        AddStage::Hashing => 1,
        AddStage::Loading => 2,
        AddStage::Sizing => 3,
        AddStage::Owning => 4,
        AddStage::Stamping => 5,
        AddStage::Saving => 6,
        AddStage::Ignoring => 7,
        AddStage::Probing => 8,
        AddStage::Storing(CopyStage::Copying) => 9,
        AddStage::Storing(CopyStage::SettingMode) => 10,
        AddStage::Storing(CopyStage::SettingGroup) => 11,
        AddStage::RemovingSidecar => 12,
        AddStage::RemovingStored => 13,
    }
}

/// How far a getting has come.
pub open spec fn get_rank(stage: GetStage) -> nat {
    match stage {
        GetStage::Locating => 0,
        GetStage::Loading => 1,
        GetStage::Hashing => 2,
        GetStage::Probing => 3,
        GetStage::Storing(CopyStage::Copying) => 4,
        GetStage::Storing(CopyStage::SettingMode) => 5,
        GetStage::Storing(CopyStage::SettingGroup) => 6,
        GetStage::Relocating => 7,
        GetStage::Rehashing => 8,
        GetStage::Sizing => 9,
    }
}

/// How far an asking for the status has come.
pub open spec fn status_rank(stage: StatusStage) -> nat {
    match stage {
        StatusStage::Locating => 0,
        StatusStage::CheckingSidecar => 1,
        StatusStage::Loading => 2,
        StatusStage::Probing => 3,
        StatusStage::Hashing => 4,
    }
}

/// Whatever an adding is answered, it ends or comes further: it never asks
/// twice from the same stage, and so makes at most fourteen requests.
pub proof fn lemma_add_comes_further(m: AddFileView, reply: ReplyView)
    ensures
        add_rank(m.stage) <= 13,
        add_next(m, reply) matches AddProgressView::Pending(m2, _) ==> add_rank(m2.stage)
            > add_rank(m.stage),
{
}

/// Whatever a getting is answered, it ends or comes further, and so makes
/// at most ten requests.
pub proof fn lemma_get_comes_further(m: GetFileView, reply: ReplyView)
    ensures
        get_rank(m.stage) <= 9,
        get_next(m, reply) matches GetProgressView::Pending(m2, _) ==> get_rank(m2.stage)
            > get_rank(m.stage),
{
}

/// Whatever an asking for the status is answered, it ends or comes further,
/// and so makes at most five requests; and none of them is a write.
pub proof fn lemma_status_comes_further(m: StatusFileView, reply: ReplyView)
    ensures
        status_rank(m.stage) <= 4,
        status_next(m, reply) matches StatusProgressView::Pending(m2, request) ==> status_rank(
            m2.stage,
        ) > status_rank(m.stage) && !request.is_write(),
{
}

/// Strict rollback, whatever the environment: once a request of the copy
/// into the store is answered with anything but `Done`, a strict adding
/// asks for the sidecar to be deleted, then for what there is of the copy,
/// and then ends with the error of the copy, whatever it is answered in
/// between.
pub proof fn lemma_strict_rollback(
    m: AddFileView,
    stage: CopyStage,
    reply: ReplyView,
    second: ReplyView,
    third: ReplyView,
)
    requires
        m.stage == AddStage::Storing(stage),
        m.strict,
        reply != ReplyView::Done,
    ensures
        ({
            &&& add_next(m, reply) matches AddProgressView::Pending(m1, r1)
            &&& r1 == (RequestView::Remove { path: sidecar_path_of(m.input) })
            &&& add_next(m1, second) matches AddProgressView::Pending(m2, r2)
            &&& r2 == (RequestView::Remove { path: m.storage_path })
            &&& add_next(m2, third) matches AddProgressView::Done(Err(e))
            &&& is_store_failure(e.error)
        }),
{
}

/// The hash cache in the abstract, with the files that it speaks of.
pub struct CacheWorld {
    /// The bytes of every file.
    pub files: Map<Seq<char>, Seq<u8>>,
    /// The modification time of every file.
    pub times: Map<Seq<char>, ModTime>,
    /// The cache entries.
    pub entries: Map<Seq<char>, CacheDataView>,
}

impl CacheWorld {
    /// What a request of a search for a digest does to the cache, and what
    /// it is answered with.
    pub open spec fn respond(self, request: RequestView) -> (CacheWorld, ReplyView) {
        match request {
            RequestView::ReadCache { path } => if self.files.contains_key(path)
                && self.entries.contains_key(path) {
                (self, ReplyView::Cache(self.entries[path], self.times[path]))
            } else {
                (self, ReplyView::Failed(Seq::empty()))
            },
            RequestView::DropCache { path } => (
                CacheWorld { entries: self.entries.remove(path), ..self },
                ReplyView::Done,
            ),
            RequestView::Digest { path } => if self.files.contains_key(path) {
                (self, ReplyView::Text(blake3_hex(self.files[path])))
            } else {
                (self, ReplyView::Failed(Seq::empty()))
            },
            RequestView::WriteCache { path, hash } => (
                CacheWorld {
                    entries: self.entries.insert(
                        path,
                        CacheDataView::fresh(hash, self.times[path]),
                    ),
                    ..self
                },
                ReplyView::Done,
            ),
            _ => (self, ReplyView::Failed(Seq::empty())),
        }
    }

    /// Whether no entry that would be trusted is wrong: an entry made at
    /// the present modification time of its file holds the digest of the
    /// file's bytes.
    pub open spec fn coherent(self) -> bool {
        forall|path: Seq<char>|
            self.files.contains_key(path) && #[trigger] self.entries.contains_key(path)
                && self.entries[path].modification_time == Some(self.times[path])
                ==> self.entries[path].hash == blake3_hex(self.files[path])
    }

    /// The cache after `hash` was recorded as the digest of `path`.
    pub open spec fn put(self, path: Seq<char>, hash: Seq<char>) -> CacheWorld {
        self.respond(RequestView::WriteCache { path, hash }).0
    }

    /// The world after the file at `path` was rewritten at the time `time`.
    pub open spec fn rewritten(self, path: Seq<char>, bytes: Seq<u8>, time: ModTime) -> CacheWorld {
        CacheWorld {
            files: self.files.insert(path, bytes),
            times: self.times.insert(path, time),
            ..self
        }
    }
}

/// The answer of a search for a digest that is run against the cache for at
/// most `fuel` requests, and the cache that it leaves.
pub open spec fn lookup_run(p: HashProgressView, w: CacheWorld, fuel: nat) -> (
    Option<ReplyView>,
    CacheWorld,
)
    decreases fuel,
{
    match p {
        HashProgressView::Done(r) => (Some(r), w),
        HashProgressView::Pending(m, request) => if fuel == 0 {
            (None, w)
        } else {
            lookup_run(
                lookup_next(m, w.respond(request).1),
                w.respond(request).0,
                (fuel - 1) as nat,
            )
        },
    }
}

/// A search for the digest of `path`: its answer and the cache after it.
pub open spec fn looked_up(w: CacheWorld, path: Seq<char>) -> (Option<ReplyView>, CacheWorld) {
    lookup_run(lookup_start(path), w, 4)
}

/// A stale digest is never trusted: against a coherent cache, the search
/// for the digest of a file answers with the digest of the file's bytes,
/// whatever the cache held, and leaves the cache coherent, with an entry
/// for the file that is valid.
pub proof fn lemma_lookup_is_right(w: CacheWorld, path: Seq<char>)
    requires
        w.coherent(),
        w.files.contains_key(path),
    ensures
        looked_up(w, path).0 == Some(ReplyView::Text(blake3_hex(w.files[path]))),
        looked_up(w, path).1.coherent(),
        looked_up(w, path).1.files == w.files,
        looked_up(w, path).1.times == w.times,
        looked_up(w, path).1.entries.contains_key(path),
        looked_up(w, path).1.entries[path].lookup(w.times[path]) == Some(
            blake3_hex(w.files[path]),
        ),
{
    reveal_with_fuel(lookup_run, 5);
    let w2 = looked_up(w, path).1;
    assert forall|other: Seq<char>|
        w2.files.contains_key(other) && #[trigger] w2.entries.contains_key(other)
            && w2.entries[other].modification_time == Some(w2.times[other])
            implies w2.entries[other].hash == blake3_hex(w2.files[other]) by {
        if other != path {
            assert(w.entries.contains_key(other));
        }
    }
}

/// Cache correctness: once a digest is recorded for a file, the search for
/// the file's digest answers with it, and asks for nothing but the entry, as
/// long as the file's modification time is the same. Once the file is
/// rewritten at another time, the entry is deleted, and the search answers
/// with the digest of the new bytes, which is then the one recorded.
pub proof fn lemma_cache_put_get(
    w: CacheWorld,
    path: Seq<char>,
    hash: Seq<char>,
    bytes: Seq<u8>,
    time: ModTime,
)
    requires
        w.files.contains_key(path),
        time != w.times[path],
    ensures
        looked_up(w.put(path, hash), path) == (Some(ReplyView::Text(hash)), w.put(path, hash)),
        ({
            &&& lookup_next(
                lookup_start(path)->Pending_0,
                w.put(path, hash).rewritten(path, bytes, time).respond(
                    RequestView::ReadCache { path },
                ).1,
            ) matches HashProgressView::Pending(_, request)
            &&& request == (RequestView::DropCache { path })
        }),
        looked_up(w.put(path, hash).rewritten(path, bytes, time), path).0 == Some(
            ReplyView::Text(blake3_hex(bytes)),
        ),
        looked_up(w.put(path, hash).rewritten(path, bytes, time), path).1.entries[path]
            == CacheDataView::fresh(blake3_hex(bytes), time),
{
    reveal_with_fuel(lookup_run, 5);
}

/// The work on an entry of an ignore file, run against the text of the
/// file: its answer and the text after it.
pub open spec fn ignore_run(p: IgnoreProgressView, text: Seq<char>, fuel: nat) -> (
    Option<ReplyView>,
    Seq<char>,
)
    decreases fuel,
{
    match p {
        IgnoreProgressView::Done(r) => (Some(r), text),
        IgnoreProgressView::Pending(m, request) => if fuel == 0 {
            (None, text)
        } else {
            match request {
                RequestView::ReadIgnore { .. } => ignore_run(
                    ignore_next(m, ReplyView::Text(text)),
                    text,
                    (fuel - 1) as nat,
                ),
                RequestView::AppendIgnore { text: more, .. } => ignore_run(
                    ignore_next(m, ReplyView::Done),
                    text + more,
                    (fuel - 1) as nat,
                ),
                _ => ignore_run(
                    ignore_next(m, ReplyView::Failed(Seq::empty())),
                    text,
                    (fuel - 1) as nat,
                ),
            }
        },
    }
}

/// Seeing to an entry leaves the ignore file with both rules for it, adds
/// nothing to a file that has them, and so does nothing when it is done
/// again.
pub proof fn lemma_ignore_entry_is_seen_to(path: Seq<char>, entry: Seq<char>, text: Seq<char>)
    ensures
        ignore_run(ignore_start(path, entry), text, 2) == (
            Some(ReplyView::Done),
            with_entry(text, entry),
        ),
        has_entry(with_entry(text, entry), entry),
        ignore_run(ignore_start(path, entry), with_entry(text, entry), 2) == (
            Some(ReplyView::Done),
            with_entry(text, entry),
        ),
{
    reveal_with_fuel(ignore_run, 3);
    crate::ignore::lemma_entry_is_idempotent(text, entry);
}

} // verus!
