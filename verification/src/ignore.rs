//! Keeping tracked files out of version control: the rules that the ignore
//! file beside a tracked file holds for it.

use vstd::prelude::*;
use crate::text::{contains_text, occurs_at, str_contains, res_text};
use crate::path::{join, joined, parent, parent_of};
use crate::repo::{relative_to, get_relative_path};
use crate::exchange::{Request, RequestView, Reply, ReplyView};
use crate::error::{FileError, FileErrorType, FileErrorView};

verus! {

/// The name of an ignore file.
pub open spec fn ignore_file_name() -> Seq<char> {
    ".gitignore"@
}

/// The rule that keeps the file at `entry` out of version control.
pub open spec fn ignore_rule(entry: Seq<char>) -> Seq<char> {
    "/"@ + entry
}

/// The rule that keeps the sidecar of the file at `entry` in it.
pub open spec fn keep_rule(entry: Seq<char>) -> Seq<char> {
    "!/"@ + entry + ".dvs"@
}

/// Whether an ignore file with this text holds both rules for `entry`.
pub open spec fn has_entry(contents: Seq<char>, entry: Seq<char>) -> bool {
    contains_text(contents, ignore_rule(entry)) && contains_text(contents, keep_rule(entry))
}

/// The lines appended for `entry`: a heading, then the two rules.
pub open spec fn entry_block(entry: Seq<char>) -> Seq<char> {
    "\n\n# dvs entry\n"@ + ignore_rule(entry) + "\n"@ + keep_rule(entry) + "\n"@
}

/// The text of an ignore file once `entry` has been seen to: unchanged where
/// it holds both rules, else with the block for `entry` at its end.
pub open spec fn with_entry(contents: Seq<char>, entry: Seq<char>) -> Seq<char> {
    if has_entry(contents, entry) {
        contents
    } else {
        contents + entry_block(entry)
    }
}

fn make_ignore_rule(entry: &String) -> (r: String)
    ensures
        r@ == ignore_rule(entry@),
{
    let mut r = String::from_str("/");
    r.append(entry.as_str());
    r
}

fn make_keep_rule(entry: &String) -> (r: String)
    ensures
        r@ == keep_rule(entry@),
{
    let mut r = String::from_str("!/");
    r.append(entry.as_str());
    r.append(".dvs");
    r
}

/// Whether the text of an ignore file holds both rules for `entry`.
pub fn entry_present(contents: &String, entry: &String) -> (b: bool)
    ensures
        b == has_entry(contents@, entry@),
{
    let first = make_ignore_rule(entry);
    let second = make_keep_rule(entry);
    str_contains(contents.as_str(), first.as_str()) && str_contains(
        contents.as_str(),
        second.as_str(),
    )
}

/// The lines to append for `entry`.
pub fn make_entry_block(entry: &String) -> (r: String)
    ensures
        r@ == entry_block(entry@),
{
    let mut r = String::from_str("\n\n# dvs entry\n");
    r.append(make_ignore_rule(entry).as_str());
    r.append("\n");
    r.append(make_keep_rule(entry).as_str());
    r.append("\n");
    r
}

/// Seeing to an entry is idempotent: once the block for `entry` stands at
/// the end of the text, both rules are found, and seeing to it again
/// changes nothing.
pub proof fn lemma_entry_is_idempotent(contents: Seq<char>, entry: Seq<char>)
    ensures
        has_entry(with_entry(contents, entry), entry),
        with_entry(with_entry(contents, entry), entry) == with_entry(contents, entry),
{
    if !has_entry(contents, entry) {
        reveal_strlit("\n\n# dvs entry\n");
        reveal_strlit("\n");
        let head = "\n\n# dvs entry\n"@;
        let first = ignore_rule(entry);
        let second = keep_rule(entry);
        let whole = contents + entry_block(entry);
        let at_first: int = (contents.len() + head.len()) as int;
        let at_second: int = at_first + first.len() + 1;
        assert(whole.subrange(at_first, at_first + first.len()) =~= first);
        assert(occurs_at(whole, first, at_first));
        assert(whole.subrange(at_second, at_second + second.len()) =~= second);
        assert(occurs_at(whole, second, at_second));
    }
}

/// Where the ignore file of a tracked file lies and under what entry the
/// file stands in it: the ignore file lies in the directory of the file's
/// resolved path, and the entry is the path from that directory to the
/// file's absolute path.
pub open spec fn ignore_plan(canonical: Seq<char>, absolute: Result<Seq<char>, Seq<char>>) -> Result<
    (Seq<char>, Seq<char>),
    Seq<char>,
> {
    match parent_of(canonical) {
        None => Err("could not get parent of "@ + canonical + ": "@),
        Some(dir) => match relative_to(dir, absolute) {
            Err(e) => Err(e),
            Ok(entry) => Ok((joined(dir, ignore_file_name()), entry)),
        },
    }
}

/// The view of a plan.
pub open spec fn plan_view(r: Result<(String, String), String>) -> Result<
    (Seq<char>, Seq<char>),
    Seq<char>,
> {
    match r {
        Ok((path, entry)) => Ok((path@, entry@)),
        Err(e) => Err(e@),
    }
}

/// Works out the ignore file and the entry for a tracked file.
pub fn plan_entry(canonical: &String, absolute: &Result<String, String>) -> (r: Result<
    (String, String),
    String,
>)
    ensures
        plan_view(r) == ignore_plan(canonical@, res_text(*absolute)),
{
    match parent(canonical.as_str()) {
        None => {
            let mut m = String::from_str("could not get parent of ");
            m.append(canonical.as_str());
            m.append(": ");
            Err(m)
        },
        Some(dir) => match get_relative_path(&dir, absolute) {
            Err(e) => Err(e),
            Ok(entry) => Ok((join(dir.as_str(), ".gitignore"), entry)),
        },
    }
}

/// The detail of the error of an entry that could not be made: which ignore
/// file it was meant for, going by the path as it was given, and why.
pub open spec fn ignore_error_text(local_path: Seq<char>, reason: Seq<char>) -> Seq<char> {
    match parent_of(local_path) {
        Some(dir) => "could not create entry for "@ + dir + "/.gitignore"@ + ": "@ + reason,
        None => "could not create entry for .gitignore"@ + ": "@ + reason,
    }
}

/// Composes the detail of the error of an entry that could not be made.
pub fn make_ignore_error_text(local_path: &String, reason: &String) -> (r: String)
    ensures
        r@ == ignore_error_text(local_path@, reason@),
{
    match parent(local_path.as_str()) {
        Some(dir) => {
            let mut m = String::from_str("could not create entry for ");
            m.append(dir.as_str());
            m.append("/.gitignore");
            m.append(": ");
            m.append(reason.as_str());
            m
        },
        None => {
            let mut m = String::from_str("could not create entry for .gitignore");
            m.append(": ");
            m.append(reason.as_str());
            m
        },
    }
}

/// Where the work on an entry stands.
#[derive(Clone, Copy, PartialEq, Eq, Debug, Structural)]
pub enum IgnoreStage {
    Reading,
    Appending,
}

/// The work of seeing to one entry of an ignore file.
#[derive(Debug, PartialEq, Eq)]
pub struct IgnoreEntry {
    pub stage: IgnoreStage,
    pub path: String,
    pub entry: String,
}

/// What a [`IgnoreEntry`] holds, with every text as its characters.
pub struct IgnoreEntryView {
    pub stage: IgnoreStage,
    pub path: Seq<char>,
    pub entry: Seq<char>,
}

impl View for IgnoreEntry {
    type V = IgnoreEntryView;

    open spec fn view(&self) -> IgnoreEntryView {
        IgnoreEntryView { stage: self.stage, path: self.path@, entry: self.entry@ }
    }
}

/// The work goes on with a request, or it is done with the answer to hand
/// back to whoever asked for the entry.
#[derive(Debug, PartialEq, Eq)]
pub enum IgnoreProgress {
    Pending(IgnoreEntry, Request),
    Done(Reply),
}

/// What a [`IgnoreProgress`] holds, with every text as its characters.
pub enum IgnoreProgressView {
    Pending(IgnoreEntryView, RequestView),
    Done(ReplyView),
}

impl View for IgnoreProgress {
    type V = IgnoreProgressView;

    open spec fn view(&self) -> IgnoreProgressView {
        match *self {
            IgnoreProgress::Pending(m, r) => IgnoreProgressView::Pending(m@, r@),
            IgnoreProgress::Done(r) => IgnoreProgressView::Done(r@),
        }
    }
}

/// The first move: read the ignore file.
pub open spec fn ignore_start(path: Seq<char>, entry: Seq<char>) -> IgnoreProgressView {
    IgnoreProgressView::Pending(
        IgnoreEntryView { stage: IgnoreStage::Reading, path, entry },
        RequestView::ReadIgnore { path },
    )
}

/// The move after an answer: a text that holds both rules ends the work, any
/// other text gets the block appended; a failure of either request is handed
/// back, and an answer that fits neither counts as a failure without reason.
pub open spec fn ignore_next(m: IgnoreEntryView, reply: ReplyView) -> IgnoreProgressView {
    match m.stage {
        IgnoreStage::Reading => match reply {
            ReplyView::Text(contents) => if has_entry(contents, m.entry) {
                IgnoreProgressView::Done(ReplyView::Done)
            } else {
                IgnoreProgressView::Pending(
                    IgnoreEntryView { stage: IgnoreStage::Appending, ..m },
                    RequestView::AppendIgnore { path: m.path, text: entry_block(m.entry) },
                )
            },
            _ => IgnoreProgressView::Done(ReplyView::Failed(reply.reason_text())),
        },
        IgnoreStage::Appending => match reply {
            ReplyView::Done => IgnoreProgressView::Done(ReplyView::Done),
            _ => IgnoreProgressView::Done(ReplyView::Failed(reply.reason_text())),
        },
    }
}

/// Starts the work on the entry `entry` of the ignore file at `path`.
pub fn add_gitignore_entry_helper(path: String, entry: String) -> (p: IgnoreProgress)
    ensures
        p@ == ignore_start(path@, entry@),
{
    let request = Request::ReadIgnore { path: path.clone() };
    IgnoreProgress::Pending(IgnoreEntry { stage: IgnoreStage::Reading, path, entry }, request)
}

impl IgnoreEntry {
    /// Goes on with the answer to the last request.
    pub fn step(self, reply: Reply) -> (p: IgnoreProgress)
        ensures
            p@ == ignore_next(self@, reply@),
    {
        match self.stage {
            IgnoreStage::Reading => match reply {
                Reply::Text(contents) => {
                    if entry_present(&contents, &self.entry) {
                        IgnoreProgress::Done(Reply::Done)
                    } else {
                        let request = Request::AppendIgnore {
                            path: self.path.clone(),
                            text: make_entry_block(&self.entry),
                        };
                        IgnoreProgress::Pending(
                            IgnoreEntry {
                                stage: IgnoreStage::Appending,
                                path: self.path,
                                entry: self.entry,
                            },
                            request,
                        )
                    }
                },
                other => IgnoreProgress::Done(Reply::Failed(other.reason_text())),
            },
            IgnoreStage::Appending => match reply {
                Reply::Done => IgnoreProgress::Done(Reply::Done),
                other => IgnoreProgress::Done(Reply::Failed(other.reason_text())),
            },
        }
    }
}

/// The request that sees to the entry of a tracked file, or the detail of
/// the error where the ignore file or the entry cannot be worked out.
pub open spec fn entry_request(
    local_path: Seq<char>,
    canonical: Seq<char>,
    absolute: Result<Seq<char>, Seq<char>>,
) -> Result<RequestView, Seq<char>> {
    match ignore_plan(canonical, absolute) {
        Ok((path, entry)) => Ok(RequestView::Ignore { path, entry }),
        Err(e) => Err(ignore_error_text(local_path, e)),
    }
}

/// The view of a request or of the detail of an error.
pub open spec fn request_result(r: Result<Request, String>) -> Result<RequestView, Seq<char>> {
    match r {
        Ok(request) => Ok(request@),
        Err(e) => Err(e@),
    }
}

/// Works out the request that keeps the file given as `local_path` out of
/// version control. `canonical` is its resolved path and `absolute` its
/// path made absolute.
pub fn add_gitignore_entry(
    local_path: &String,
    canonical: &String,
    absolute: &Result<String, String>,
) -> (r: Result<Request, String>)
    ensures
        request_result(r) == entry_request(local_path@, canonical@, res_text(*absolute)),
{
    match plan_entry(canonical, absolute) {
        Ok((path, entry)) => Ok(Request::Ignore { path, entry }),
        Err(e) => Err(make_ignore_error_text(local_path, &e)),
    }
}

/// The rule that keeps ignore files in version control under a policy that
/// ignores everything.
pub open spec fn ignore_file_exception() -> Seq<char> {
    "!.gitignore"@
}

/// The rule that keeps sidecars in version control under such a policy.
pub open spec fn sidecar_exception() -> Seq<char> {
    "!*.dvs"@
}

/// Whether an ignore file with this text holds both exceptions.
pub open spec fn has_exceptions(contents: Seq<char>) -> bool {
    contains_text(contents, ignore_file_exception()) && contains_text(
        contents,
        sidecar_exception(),
    )
}

/// The lines appended for the exceptions: a heading, then the two rules.
pub open spec fn exceptions_block() -> Seq<char> {
    "\n\n# dvs exceptions\n"@ + ignore_file_exception() + "\n"@ + sidecar_exception() + "\n"@
}

/// The text of the project's ignore file once the exceptions have been
/// seen to.
pub open spec fn with_exceptions(contents: Seq<char>) -> Seq<char> {
    if has_exceptions(contents) {
        contents
    } else {
        contents + exceptions_block()
    }
}

/// Seeing to the exceptions is idempotent.
pub proof fn lemma_exceptions_are_idempotent(contents: Seq<char>)
    ensures
        has_exceptions(with_exceptions(contents)),
        with_exceptions(with_exceptions(contents)) == with_exceptions(contents),
{
    if !has_exceptions(contents) {
        reveal_strlit("\n\n# dvs exceptions\n");
        reveal_strlit("\n");
        let head = "\n\n# dvs exceptions\n"@;
        let first = ignore_file_exception();
        let second = sidecar_exception();
        let whole = contents + exceptions_block();
        let at_first: int = (contents.len() + head.len()) as int;
        let at_second: int = at_first + first.len() + 1;
        assert(whole.subrange(at_first, at_first + first.len()) =~= first);
        assert(occurs_at(whole, first, at_first));
        assert(whole.subrange(at_second, at_second + second.len()) =~= second);
        assert(occurs_at(whole, second, at_second));
    }
}

/// The work of seeing to the exceptions in the project's ignore file.
#[derive(Debug, PartialEq, Eq)]
pub struct ProjectIgnore {
    pub stage: IgnoreStage,
    pub root: String,
    pub path: String,
}

/// What a [`ProjectIgnore`] holds, with every text as its characters.
pub struct ProjectIgnoreView {
    pub stage: IgnoreStage,
    pub root: Seq<char>,
    pub path: Seq<char>,
}

impl View for ProjectIgnore {
    type V = ProjectIgnoreView;

    open spec fn view(&self) -> ProjectIgnoreView {
        ProjectIgnoreView { stage: self.stage, root: self.root@, path: self.path@ }
    }
}

/// The work goes on with a request, or it is done.
#[derive(Debug, PartialEq, Eq)]
pub enum ProjectProgress {
    Pending(ProjectIgnore, Request),
    Done(Result<(), FileError>),
}

/// What a [`ProjectProgress`] holds, with every text as its characters.
pub enum ProjectProgressView {
    Pending(ProjectIgnoreView, RequestView),
    Done(Result<(), FileErrorView>),
}

impl View for ProjectProgress {
    type V = ProjectProgressView;

    open spec fn view(&self) -> ProjectProgressView {
        match *self {
            ProjectProgress::Pending(m, r) => ProjectProgressView::Pending(m@, r@),
            ProjectProgress::Done(Ok(_)) => ProjectProgressView::Done(Ok(())),
            ProjectProgress::Done(Err(e)) => ProjectProgressView::Done(Err(e@)),
        }
    }
}

impl ProjectIgnoreView {
    /// The error of exceptions that could not be seen to.
    pub open spec fn fail(self, reason: Seq<char>) -> ProjectProgressView {
        ProjectProgressView::Done(
            Err(
                FileErrorView {
                    relative_path: None,
                    absolute_path: Some(self.path),
                    error: FileErrorType::ProjectGitIgnoreNotAdded,
                    error_message: Some("could not create entry for "@ + self.path + ": "@ + reason),
                    input: self.root,
                },
            ),
        )
    }
}

/// The first move: read the ignore file at the root of the repository,
/// which must be there.
pub open spec fn project_start(repo_root: Seq<char>) -> ProjectProgressView {
    ProjectProgressView::Pending(
        ProjectIgnoreView {
            stage: IgnoreStage::Reading,
            root: repo_root,
            path: joined(repo_root, ignore_file_name()),
        },
        RequestView::ReadProjectIgnore { path: joined(repo_root, ignore_file_name()) },
    )
}

/// The move after an answer: a text that holds both exceptions ends the
/// work, any other text gets the block appended; a file that cannot be
/// read, as one that is not there, and a block that cannot be appended are
/// errors.
pub open spec fn project_next(m: ProjectIgnoreView, reply: ReplyView) -> ProjectProgressView {
    match m.stage {
        IgnoreStage::Reading => match reply {
            ReplyView::Text(contents) => if has_exceptions(contents) {
                ProjectProgressView::Done(Ok(()))
            } else {
                ProjectProgressView::Pending(
                    ProjectIgnoreView { stage: IgnoreStage::Appending, ..m },
                    RequestView::AppendIgnore { path: m.path, text: exceptions_block() },
                )
            },
            _ => m.fail(reply.reason_text()),
        },
        IgnoreStage::Appending => match reply {
            ReplyView::Done => ProjectProgressView::Done(Ok(())),
            _ => m.fail(reply.reason_text()),
        },
    }
}

/// Starts the work of seeing to it that the ignore file at the root of the
/// repository keeps ignore files and sidecars in version control.
pub fn ensure_project_exceptions(repo_root: &String) -> (p: ProjectProgress)
    ensures
        p@ == project_start(repo_root@),
{
    let path = join(repo_root.as_str(), ".gitignore");
    let request = Request::ReadProjectIgnore { path: path.clone() };
    ProjectProgress::Pending(
        ProjectIgnore { stage: IgnoreStage::Reading, root: repo_root.clone(), path },
        request,
    )
}

impl ProjectIgnore {
    fn fail(self, reason: String) -> (p: ProjectProgress)
        ensures
            p@ == self@.fail(reason@),
    {
        let mut text = String::from_str("could not create entry for ");
        text.append(self.path.as_str());
        text.append(": ");
        text.append(reason.as_str());
        ProjectProgress::Done(
            Err(
                FileError {
                    relative_path: None,
                    absolute_path: Some(self.path),
                    error: FileErrorType::ProjectGitIgnoreNotAdded,
                    error_message: Some(text),
                    input: self.root,
                },
            ),
        )
    }

    /// Goes on with the answer to the last request.
    pub fn step(self, reply: Reply) -> (p: ProjectProgress)
        ensures
            p@ == project_next(self@, reply@),
    {
        match self.stage {
            IgnoreStage::Reading => match reply {
                Reply::Text(contents) => {
                    if str_contains(contents.as_str(), "!.gitignore") && str_contains(
                        contents.as_str(),
                        "!*.dvs",
                    ) {
                        ProjectProgress::Done(Ok(()))
                    } else {
                        let mut block = String::from_str("\n\n# dvs exceptions\n");
                        block.append("!.gitignore");
                        block.append("\n");
                        block.append("!*.dvs");
                        block.append("\n");
                        let request = Request::AppendIgnore { path: self.path.clone(), text: block };
                        ProjectProgress::Pending(
                            ProjectIgnore {
                                stage: IgnoreStage::Appending,
                                root: self.root,
                                path: self.path,
                            },
                            request,
                        )
                    }
                },
                other => {
                    let reason = other.reason_text();
                    self.fail(reason)
                },
            },
            IgnoreStage::Appending => match reply {
                Reply::Done => ProjectProgress::Done(Ok(())),
                other => {
                    let reason = other.reason_text();
                    self.fail(reason)
                },
            },
        }
    }
}

} // verus!
