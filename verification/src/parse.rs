//! From what the user named to the queue of paths to work on.
//!
//! A token may be a path, a directory or a pattern. Whoever runs the engine
//! expands each token against the file system and reports what it found;
//! the queue is built from that. No path stands in a queue twice.

use vstd::prelude::*;
use crate::text::{to_chars, texts, ends_with};
use crate::path::{file_name, file_name_of};
use crate::file::{tracked_path_of, path_without_metadata, missing_sidecar_error,
    make_missing_sidecar_error};
use crate::ignore::ignore_file_name;
use crate::error::{BatchError, BatchErrorView};

verus! {

/// One thing that the expansion of a pattern came upon.
#[derive(Debug, PartialEq, Eq)]
pub enum GlobItem {
    /// A path that matches; `has_sidecar` says whether the path that it stands
    /// for has a sidecar.
    Found { path: String, has_sidecar: bool },
    /// A place that could not be read.
    Unreadable,
}

/// What a [`GlobItem`] holds, with every text as its characters.
pub enum GlobItemView {
    Found { path: Seq<char>, has_sidecar: bool },
    Unreadable,
}

impl View for GlobItem {
    type V = GlobItemView;

    open spec fn view(&self) -> GlobItemView {
        match *self {
            GlobItem::Found { path, has_sidecar } => GlobItemView::Found { path: path@, has_sidecar },
            GlobItem::Unreadable => GlobItemView::Unreadable,
        }
    }
}

/// A token as the user gave it, with what the file system says of it.
#[derive(Debug, PartialEq, Eq)]
pub struct GlobToken {
    pub entry: String,
    /// Whether the token names a file or directory that exists.
    pub on_disk: bool,
    /// Whether the path named by the token has a sidecar.
    pub has_sidecar: bool,
    /// What the token expands to as a pattern, in order; none where it is
    /// refused as a pattern.
    pub expansion: Option<Vec<GlobItem>>,
}

/// What a [`GlobToken`] holds, with every text as its characters.
pub struct GlobTokenView {
    pub entry: Seq<char>,
    pub on_disk: bool,
    pub has_sidecar: bool,
    pub expansion: Option<Seq<GlobItemView>>,
}

/// The views of a list of items.
pub open spec fn item_views(items: Seq<GlobItem>) -> Seq<GlobItemView> {
    items.map_values(|i: GlobItem| i@)
}

impl View for GlobToken {
    type V = GlobTokenView;

    open spec fn view(&self) -> GlobTokenView {
        GlobTokenView {
            entry: self.entry@,
            on_disk: self.on_disk,
            has_sidecar: self.has_sidecar,
            expansion: match self.expansion {
                Some(items) => Some(item_views(items@)),
                None => None,
            },
        }
    }
}

/// The views of a list of tokens.
pub open spec fn token_views(tokens: Seq<GlobToken>) -> Seq<GlobTokenView> {
    tokens.map_values(|t: GlobToken| t@)
}

/// The operation that a queue is built for.
#[derive(Clone, Copy, PartialEq, Eq, Debug, Structural)]
pub enum QueueMode {
    Add,
    Get,
    Status,
}

/// Whether `c` is one of the characters that make a token a pattern.
pub open spec fn is_glob_meta(c: char) -> bool {
    c == '*' || c == '?' || c == '[' || c == ']' || c == '{' || c == '}'
}

/// Whether a token holds a character that makes it a pattern.
pub open spec fn has_glob_meta(entry: Seq<char>) -> bool {
    exists|i: int| 0 <= i < entry.len() && is_glob_meta(#[trigger] entry[i])
}

/// Whether a token names one path, as opposed to standing for whatever
/// matches it: it names something that exists; or it is refused as a
/// pattern; or it matches nothing and holds no pattern character.
pub open spec fn is_explicit(t: GlobTokenView) -> bool {
    t.on_disk || match t.expansion {
        None => true,
        Some(items) => items.len() == 0 && !has_glob_meta(t.entry),
    }
}

/// Whether a path names an ignore file.
pub open spec fn names_ignore_file(path: Seq<char>) -> bool {
    file_name_of(path) == ignore_file_name()
}

/// A queue with `path` at its end, unless it is queued already.
pub open spec fn push_new(queue: Seq<Seq<char>>, path: Seq<char>) -> Seq<Seq<char>> {
    if queue.contains(path) {
        queue
    } else {
        queue.push(path)
    }
}

/// The queue after one item of a token's expansion. A match is queued as
/// the path that it stands for, unless that names an ignore file or, where
/// only tracked files are wanted, has no sidecar. A place that could not be
/// read queues the token itself.
pub open spec fn after_item(
    queue: Seq<Seq<char>>,
    entry: Seq<char>,
    item: GlobItemView,
    sidecars_only: bool,
) -> Seq<Seq<char>> {
    match item {
        GlobItemView::Found { path, has_sidecar } => {
            let clean = tracked_path_of(path);
            if names_ignore_file(clean) || (sidecars_only && !has_sidecar) {
                queue
            } else {
                push_new(queue, clean)
            }
        },
        GlobItemView::Unreadable => push_new(queue, entry),
    }
}

/// The queue after all the items of a token's expansion, in order.
pub open spec fn after_items(
    queue: Seq<Seq<char>>,
    entry: Seq<char>,
    items: Seq<GlobItemView>,
    sidecars_only: bool,
) -> Seq<Seq<char>>
    decreases items.len(),
{
    if items.len() == 0 {
        queue
    } else {
        after_item(
            after_items(queue, entry, items.drop_last(), sidecars_only),
            entry,
            items.last(),
            sidecars_only,
        )
    }
}

/// The queue after one token. For a status, a token that names one path
/// queues the path that it stands for. Else a token that is refused as a
/// pattern, or matches nothing, is queued as it is, and one that matches
/// queues its matches. For a get and a status only tracked matches count.
pub open spec fn after_token(queue: Seq<Seq<char>>, t: GlobTokenView, mode: QueueMode) -> Seq<
    Seq<char>,
> {
    if mode == QueueMode::Status && is_explicit(t) {
        push_new(queue, tracked_path_of(t.entry))
    } else {
        match t.expansion {
            None => push_new(queue, t.entry),
            Some(items) => if items.len() == 0 {
                push_new(queue, t.entry)
            } else {
                after_items(queue, t.entry, items, mode != QueueMode::Add)
            },
        }
    }
}

/// The queue built from the tokens, in order.
pub open spec fn queue_of(tokens: Seq<GlobTokenView>, mode: QueueMode) -> Seq<Seq<char>>
    decreases tokens.len(),
{
    if tokens.len() == 0 {
        Seq::empty()
    } else {
        after_token(queue_of(tokens.drop_last(), mode), tokens.last(), mode)
    }
}

/// No path stands twice in a queue that was built from tokens.
pub proof fn lemma_queue_has_no_duplicates(tokens: Seq<GlobTokenView>, mode: QueueMode)
    ensures
        queue_of(tokens, mode).no_duplicates(),
    decreases tokens.len(),
{
    if tokens.len() > 0 {
        lemma_queue_has_no_duplicates(tokens.drop_last(), mode);
        let before = queue_of(tokens.drop_last(), mode);
        let t = tokens.last();
        match t.expansion {
            Some(items) => {
                lemma_items_keep_distinct(before, t.entry, items, mode != QueueMode::Add);
            },
            None => {},
        }
    }
}

proof fn lemma_items_keep_distinct(
    queue: Seq<Seq<char>>,
    entry: Seq<char>,
    items: Seq<GlobItemView>,
    sidecars_only: bool,
)
    requires
        queue.no_duplicates(),
    ensures
        after_items(queue, entry, items, sidecars_only).no_duplicates(),
    decreases items.len(),
{
    if items.len() > 0 {
        lemma_items_keep_distinct(queue, entry, items.drop_last(), sidecars_only);
    }
}

fn holds_glob_meta(entry: &String) -> (b: bool)
    ensures
        b == has_glob_meta(entry@),
{
    let v = to_chars(entry.as_str());
    let mut i: usize = 0;
    while i < v.len()
        invariant
            i <= v.len(),
            v@ == entry@,
            forall|j: int| 0 <= j < i ==> !is_glob_meta(#[trigger] entry@[j]),
        decreases v.len() - i,
    {
        let c = v[i];
        if c == '*' || c == '?' || c == '[' || c == ']' || c == '{' || c == '}' {
            return true;
        }
        i += 1;
    }
    false
}

/// Whether the token names one path.
pub fn is_explicit_path(token: &GlobToken) -> (b: bool)
    ensures
        b == is_explicit(token@),
{
    if token.on_disk {
        return true;
    }
    match &token.expansion {
        None => true,
        Some(items) => {
            assert(item_views(items@).len() == items@.len());
            items.len() == 0 && !holds_glob_meta(&token.entry)
        },
    }
}

/// The first token that names one path and has no sidecar, if there is one.
pub open spec fn first_explicit_untracked(tokens: Seq<GlobTokenView>) -> Option<int>
    decreases tokens.len(),
{
    if tokens.len() == 0 {
        None
    } else {
        match first_explicit_untracked(tokens.drop_last()) {
            Some(i) => Some(i),
            None => if is_explicit(tokens.last()) && !tokens.last().has_sidecar {
                Some(tokens.len() - 1)
            } else {
                None
            },
        }
    }
}

/// What the first token that names one path and has no sidecar is: one of
/// the tokens, naming one path, without a sidecar, and with no such token
/// before it. Where there is none, every token that names one path has a
/// sidecar.
pub proof fn lemma_first_explicit_untracked(tokens: Seq<GlobTokenView>)
    ensures
        match first_explicit_untracked(tokens) {
            Some(i) => {
                &&& 0 <= i < tokens.len()
                &&& is_explicit(tokens[i])
                &&& !tokens[i].has_sidecar
                &&& forall|j: int|
                    0 <= j < i ==> !(is_explicit(#[trigger] tokens[j]) && !tokens[j].has_sidecar)
            },
            None => forall|j: int|
                0 <= j < tokens.len() ==> !(is_explicit(#[trigger] tokens[j])
                    && !tokens[j].has_sidecar),
        },
    decreases tokens.len(),
{
    if tokens.len() > 0 {
        let front = tokens.drop_last();
        lemma_first_explicit_untracked(front);
        assert forall|j: int| 0 <= j < front.len() implies front[j] == tokens[j] by {}
    }
}

/// The verdict on the tokens that name one path each: the first of them
/// that has no sidecar fails the batch.
pub open spec fn explicit_paths_verdict(tokens: Seq<GlobTokenView>) -> Result<(), BatchErrorView> {
    match first_explicit_untracked(tokens) {
        Some(i) => Err(missing_sidecar_error(tokens[i].entry)),
        None => Ok(()),
    }
}

/// Checks that every token that names one path names a tracked one.
pub fn check_metafiles_for_explicit_paths(files: &Vec<GlobToken>) -> (r: Result<(), BatchError>)
    ensures
        crate::config::batch_result(r) == explicit_paths_verdict(token_views(files@)),
{
    let ghost all = token_views(files@);
    let mut i: usize = 0;
    while i < files.len()
        invariant
            i <= files.len(),
            all == token_views(files@),
            first_explicit_untracked(all.take(i as int)).is_none(),
        decreases files.len() - i,
    {
        proof {
            assert(all.take(i + 1).drop_last() =~= all.take(i as int));
            assert(all.take(i + 1).last() == files@[i as int]@);
        }
        if is_explicit_path(&files[i]) && !files[i].has_sidecar {
            proof {
                lemma_first_explicit_untracked_from(all, i as int, files@.len() as int);
                assert(all.take(files@.len() as int) =~= all);
            }
            return Err(make_missing_sidecar_error(&files[i].entry));
        }
        i += 1;
    }
    assert(all.take(i as int) =~= all);
    Ok(())
}

proof fn lemma_first_explicit_untracked_from(tokens: Seq<GlobTokenView>, i: int, n: int)
    requires
        0 <= i < n <= tokens.len(),
        first_explicit_untracked(tokens.take(i)).is_none(),
        is_explicit(tokens[i]) && !tokens[i].has_sidecar,
    ensures
        first_explicit_untracked(tokens.take(n)) == Some(i),
    decreases n - i,
{
    assert(tokens.take(n).drop_last() =~= tokens.take(n - 1));
    if n > i + 1 {
        lemma_first_explicit_untracked_from(tokens, i, n - 1);
    }
}

fn queue_holds(queue: &Vec<String>, path: &String) -> (b: bool)
    ensures
        b == texts(queue@).contains(path@),
{
    let mut i: usize = 0;
    while i < queue.len()
        invariant
            i <= queue.len(),
            forall|j: int| 0 <= j < i ==> texts(queue@)[j] != path@,
        decreases queue.len() - i,
    {
        if queue[i] == *path {
            assert(texts(queue@)[i as int] == path@);
            return true;
        }
        i += 1;
    }
    false
}

fn queue_push_new(queue: &mut Vec<String>, path: String)
    ensures
        texts(final(queue)@) == push_new(texts(old(queue)@), path@),
{
    if !queue_holds(queue, &path) {
        queue.push(path);
        assert(texts(queue@) =~= texts(old(queue)@).push(path@));
    }
}

fn is_ignore_file(path: &String) -> (b: bool)
    ensures
        b == names_ignore_file(path@),
{
    let name = file_name(path.as_str());
    let wanted = String::from_str(".gitignore");
    name == wanted
}

fn queue_item(queue: &mut Vec<String>, entry: &String, item: &GlobItem, sidecars_only: bool)
    ensures
        texts(final(queue)@) == after_item(texts(old(queue)@), entry@, item@, sidecars_only),
{
    match item {
        GlobItem::Found { path, has_sidecar } => {
            let clean = path_without_metadata(path);
            if is_ignore_file(&clean) || (sidecars_only && !*has_sidecar) {
            } else {
                queue_push_new(queue, clean);
            }
        },
        GlobItem::Unreadable => {
            queue_push_new(queue, entry.clone());
        },
    }
}

fn queue_items(queue: &mut Vec<String>, entry: &String, items: &Vec<GlobItem>, sidecars_only: bool)
    ensures
        texts(final(queue)@) == after_items(
            texts(old(queue)@),
            entry@,
            item_views(items@),
            sidecars_only,
        ),
{
    let ghost all = item_views(items@);
    let ghost start = texts(queue@);
    let mut i: usize = 0;
    proof {
        assert(all.take(0) =~= Seq::<GlobItemView>::empty());
    }
    while i < items.len()
        invariant
            i <= items.len(),
            all == item_views(items@),
            texts(queue@) == after_items(start, entry@, all.take(i as int), sidecars_only),
        decreases items.len() - i,
    {
        proof {
            assert(all.take(i + 1).drop_last() =~= all.take(i as int));
            assert(all.take(i + 1).last() == items@[i as int]@);
        }
        queue_item(queue, entry, &items[i], sidecars_only);
        i += 1;
    }
    assert(all.take(i as int) =~= all);
}

fn queue_token(queue: &mut Vec<String>, token: &GlobToken, mode: QueueMode)
    ensures
        texts(final(queue)@) == after_token(texts(old(queue)@), token@, mode),
{
    let status = match mode {
        QueueMode::Status => true,
        _ => false,
    };
    let sidecars_only = match mode {
        QueueMode::Add => false,
        _ => true,
    };
    if status && is_explicit_path(token) {
        queue_push_new(queue, path_without_metadata(&token.entry));
        return ;
    }
    match &token.expansion {
        None => {
            queue_push_new(queue, token.entry.clone());
        },
        Some(items) => {
            assert(item_views(items@).len() == items@.len());
            if items.len() == 0 {
                queue_push_new(queue, token.entry.clone());
            } else {
                queue_items(queue, &token.entry, items, sidecars_only);
            }
        },
    }
}

fn build_queue(tokens: &Vec<GlobToken>, mode: QueueMode) -> (queue: Vec<String>)
    ensures
        texts(queue@) == queue_of(token_views(tokens@), mode),
        texts(queue@).no_duplicates(),
{
    let ghost all = token_views(tokens@);
    let mut queue: Vec<String> = Vec::new();
    let mut i: usize = 0;
    proof {
        assert(all.take(0) =~= Seq::<GlobTokenView>::empty());
        assert(texts(queue@) =~= Seq::<Seq<char>>::empty());
    }
    while i < tokens.len()
        invariant
            i <= tokens.len(),
            all == token_views(tokens@),
            texts(queue@) == queue_of(all.take(i as int), mode),
        decreases tokens.len() - i,
    {
        proof {
            assert(all.take(i + 1).drop_last() =~= all.take(i as int));
            assert(all.take(i + 1).last() == tokens@[i as int]@);
        }
        queue_token(&mut queue, &tokens[i], mode);
        i += 1;
    }
    proof {
        assert(all.take(i as int) =~= all);
        lemma_queue_has_no_duplicates(all, mode);
    }
    queue
}

/// The queue of an add: every path that a token names or matches, but no
/// ignore file that a pattern came upon.
pub fn parse_files_from_globs_add(globs: &Vec<GlobToken>) -> (queue: Vec<String>)
    ensures
        texts(queue@) == queue_of(token_views(globs@), QueueMode::Add),
        texts(queue@).no_duplicates(),
{
    build_queue(globs, QueueMode::Add)
}

/// The view of a result that holds a queue or a batch error.
pub open spec fn queue_result(r: Result<Vec<String>, BatchError>) -> Result<
    Seq<Seq<char>>,
    BatchErrorView,
> {
    match r {
        Ok(q) => Ok(texts(q@)),
        Err(e) => Err(e@),
    }
}

/// The queue of a get: a token that names one path without a sidecar fails
/// the batch; else the queue holds the tokens that match nothing, as they
/// are, and the tracked paths among the matches.
pub open spec fn get_queue_of(tokens: Seq<GlobTokenView>) -> Result<Seq<Seq<char>>, BatchErrorView> {
    match explicit_paths_verdict(tokens) {
        Err(e) => Err(e),
        Ok(_) => Ok(queue_of(tokens, QueueMode::Get)),
    }
}

/// Builds the queue of a get.
pub fn parse_files_from_globs_get(globs: &Vec<GlobToken>) -> (r: Result<Vec<String>, BatchError>)
    ensures
        queue_result(r) == get_queue_of(token_views(globs@)),
        r matches Ok(q) ==> texts(q@).no_duplicates(),
{
    match check_metafiles_for_explicit_paths(globs) {
        Err(e) => Err(e),
        Ok(_) => Ok(build_queue(globs, QueueMode::Get)),
    }
}

/// Whether a path is that of a sidecar: its last segment ends in the
/// sidecar ending and is more than the ending.
pub open spec fn is_sidecar_name(path: Seq<char>) -> bool {
    file_name_of(path).len() > 4 && ends_with(file_name_of(path), ".dvs"@)
}

/// The tracked paths that stand behind the sidecars among `walked`.
pub open spec fn tracked_among(walked: Seq<Seq<char>>) -> Seq<Seq<char>>
    decreases walked.len(),
{
    if walked.len() == 0 {
        Seq::empty()
    } else if is_sidecar_name(walked.last()) {
        push_new(tracked_among(walked.drop_last()), tracked_path_of(walked.last()))
    } else {
        tracked_among(walked.drop_last())
    }
}

/// No path stands twice among the tracked paths of a walk.
pub proof fn lemma_tracked_among_distinct(walked: Seq<Seq<char>>)
    ensures
        tracked_among(walked).no_duplicates(),
    decreases walked.len(),
{
    if walked.len() > 0 {
        lemma_tracked_among_distinct(walked.drop_last());
    }
}

fn is_sidecar_file(path: &String) -> (b: bool)
    ensures
        b == is_sidecar_name(path@),
{
    let name = file_name(path.as_str());
    let v = to_chars(name.as_str());
    if v.len() <= 4 {
        return false;
    }
    let n = v.len();
    proof {
        reveal_strlit(".dvs");
    }
    let ok = v[n - 4] == '.' && v[n - 3] == 'd' && v[n - 2] == 'v' && v[n - 1] == 's';
    proof {
        let tail = name@.skip(name@.len() - 4);
        if ok {
            assert(tail =~= ".dvs"@);
        } else {
            assert(tail[0] == v@[n - 4] && tail[1] == v@[n - 3] && tail[2] == v@[n - 2] && tail[3]
                == v@[n - 1]);
        }
    }
    ok
}

/// Every tracked file under the repository: `walked` is every path found
/// under its root.
pub fn get_all_meta_files(walked: &Vec<String>) -> (queue: Vec<String>)
    ensures
        texts(queue@) == tracked_among(texts(walked@)),
        texts(queue@).no_duplicates(),
{
    let ghost all = texts(walked@);
    let mut queue: Vec<String> = Vec::new();
    let mut i: usize = 0;
    proof {
        assert(all.take(0) =~= Seq::<Seq<char>>::empty());
        assert(texts(queue@) =~= Seq::<Seq<char>>::empty());
    }
    while i < walked.len()
        invariant
            i <= walked.len(),
            all == texts(walked@),
            texts(queue@) == tracked_among(all.take(i as int)),
        decreases walked.len() - i,
    {
        proof {
            assert(all.take(i + 1).drop_last() =~= all.take(i as int));
            assert(all.take(i + 1).last() == walked@[i as int]@);
        }
        if is_sidecar_file(&walked[i]) {
            queue_push_new(&mut queue, path_without_metadata(&walked[i]));
        }
        i += 1;
    }
    proof {
        assert(all.take(i as int) =~= all);
        lemma_tracked_among_distinct(all);
    }
    queue
}

/// Whether the tokens ask for the whole repository: there are none, or
/// there is the empty one alone.
pub open spec fn asks_for_everything(tokens: Seq<GlobTokenView>) -> bool {
    tokens.len() == 0 || (tokens.len() == 1 && tokens[0].entry.len() == 0)
}

/// Whether the tokens ask for the whole repository, so that it must be
/// walked.
pub fn wants_whole_repository(globs: &Vec<GlobToken>) -> (b: bool)
    ensures
        b == asks_for_everything(token_views(globs@)),
{
    if globs.len() == 0 {
        true
    } else if globs.len() == 1 {
        assert(token_views(globs@)[0] == globs@[0]@);
        globs[0].entry.as_str().unicode_len() == 0
    } else {
        false
    }
}

/// The queue of a status: every tracked file under the repository where the
/// tokens ask for that; else the paths that the tokens name, and the
/// tracked paths among their matches.
pub open spec fn status_queue_of(tokens: Seq<GlobTokenView>, walked: Seq<Seq<char>>) -> Seq<
    Seq<char>,
> {
    if asks_for_everything(tokens) {
        tracked_among(walked)
    } else {
        queue_of(tokens, QueueMode::Status)
    }
}

/// Builds the queue of a status. `walked` is read only where the tokens ask
/// for the whole repository.
pub fn parse_files_from_globs_status(globs: &Vec<GlobToken>, walked: &Vec<String>) -> (queue: Vec<
    String,
>)
    ensures
        texts(queue@) == status_queue_of(token_views(globs@), texts(walked@)),
        texts(queue@).no_duplicates(),
{
    if wants_whole_repository(globs) {
        get_all_meta_files(walked)
    } else {
        build_queue(globs, QueueMode::Status)
    }
}

} // verus!
