//! Adding a file: hashing it, writing its sidecar, keeping it out of version
//! control, and copying it into the store unless its content is there.

use vstd::prelude::*;
use crate::text::opt_text;
use crate::outcome::Outcome;
use crate::error::{FileError, FileErrorType, FileErrorView, BatchError, BatchErrorType,
    BatchErrorView};
use crate::config::{Settings, SettingsView};
use crate::exchange::{Request, RequestView, Reply, ReplyView};
use crate::file::{Metadata, MetadataView, PathProbe, PathProbeView, sidecar_path_of,
    metadata_path, absolute_path_of, relative_path_of, located_error, get_absolute_path,
    get_relative_path_to_wd, check_if_dir, get_file_size, get_user_name, save, unknown_probe};
use crate::repo::{in_repo_verdict, check_file_in_git_repo};
use crate::hash::{storage_path_of, get_storage_path};
use crate::ignore::{entry_request, add_gitignore_entry, ignore_error_text, make_ignore_error_text};
use crate::copy::{CopyStage, CopyStep, CopyStepView, copy_start, copy_next,
    copy_file_to_storage_directory, copy_step};

verus! {

/// A file that was added.
#[derive(Debug, PartialEq, Eq)]
pub struct AddedFile {
    pub relative_path: String,
    pub outcome: Outcome,
    pub file_size_bytes: u64,
    pub blake3_checksum: String,
    pub absolute_path: String,
}

/// What a [`AddedFile`] holds, with every text as its characters.
pub struct AddedFileView {
    pub relative_path: Seq<char>,
    pub outcome: Outcome,
    pub file_size_bytes: u64,
    pub blake3_checksum: Seq<char>,
    pub absolute_path: Seq<char>,
}

impl View for AddedFile {
    type V = AddedFileView;

    open spec fn view(&self) -> AddedFileView {
        AddedFileView {
            relative_path: self.relative_path@,
            outcome: self.outcome,
            file_size_bytes: self.file_size_bytes,
            blake3_checksum: self.blake3_checksum@,
            absolute_path: self.absolute_path@,
        }
    }
}

/// Where the adding of one file stands: which answer is awaited.
#[derive(Clone, Copy, PartialEq, Eq, Debug, Structural)]
pub enum AddStage {
    Locating,
    Hashing,
    Loading,
    Sizing,
    Owning,
    Stamping,
    Saving,
    Ignoring,
    Probing,
    Storing(CopyStage),
    RemovingSidecar,
    RemovingStored,
}

/// The adding of one file.
#[derive(Debug, PartialEq, Eq)]
pub struct AddFile {
    pub settings: Settings,
    pub message: String,
    /// Whether a failed copy into the store takes the sidecar back.
    pub strict: bool,
    pub input: String,
    pub stage: AddStage,
    pub relative: String,
    pub absolute: String,
    /// What was found when the file was located.
    pub probe: PathProbe,
    pub hash: String,
    pub size: u64,
    pub owner: String,
    pub storage_path: String,
    /// The failure that is being rolled back.
    pub failure: FileErrorType,
    pub failure_message: Option<String>,
}

/// What a [`AddFile`] holds, with every text as its characters.
pub struct AddFileView {
    pub settings: SettingsView,
    pub message: Seq<char>,
    pub strict: bool,
    pub input: Seq<char>,
    pub stage: AddStage,
    pub relative: Seq<char>,
    pub absolute: Seq<char>,
    pub probe: PathProbeView,
    pub hash: Seq<char>,
    pub size: u64,
    pub owner: Seq<char>,
    pub storage_path: Seq<char>,
    pub failure: FileErrorType,
    pub failure_message: Option<Seq<char>>,
}

impl View for AddFile {
    type V = AddFileView;

    open spec fn view(&self) -> AddFileView {
        AddFileView {
            settings: self.settings@,
            message: self.message@,
            strict: self.strict,
            input: self.input@,
            stage: self.stage,
            relative: self.relative@,
            absolute: self.absolute@,
            probe: self.probe@,
            hash: self.hash@,
            size: self.size,
            owner: self.owner@,
            storage_path: self.storage_path@,
            failure: self.failure,
            failure_message: opt_text(self.failure_message),
        }
    }
}

/// The adding goes on with a request, or it is done with the file's result.
#[derive(Debug, PartialEq, Eq)]
pub enum AddProgress {
    Pending(AddFile, Request),
    Done(Result<AddedFile, FileError>),
}

/// What a [`AddProgress`] holds, with every text as its characters.
pub enum AddProgressView {
    Pending(AddFileView, RequestView),
    Done(Result<AddedFileView, FileErrorView>),
}

impl View for AddProgress {
    type V = AddProgressView;

    open spec fn view(&self) -> AddProgressView {
        match *self {
            AddProgress::Pending(m, r) => AddProgressView::Pending(m@, r@),
            AddProgress::Done(Ok(f)) => AddProgressView::Done(Ok(f@)),
            AddProgress::Done(Err(e)) => AddProgressView::Done(Err(e@)),
        }
    }
}

impl AddFileView {
    /// An error of this file, once it is located.
    pub open spec fn error(self, kind: FileErrorType, message: Option<Seq<char>>) -> FileErrorView {
        FileErrorView {
            relative_path: Some(self.relative),
            absolute_path: Some(self.absolute),
            error: kind,
            error_message: message,
            input: self.input,
        }
    }

    /// The end with an error of this file.
    pub open spec fn fail(self, kind: FileErrorType, message: Option<Seq<char>>) -> AddProgressView {
        AddProgressView::Done(Err(self.error(kind, message)))
    }

    /// The end with an error of a look-up or a write of this file, which
    /// carries the best that was known of the file's place when it was
    /// located, and the reason.
    pub open spec fn fail_located(self, kind: FileErrorType, reason: Seq<char>) -> AddProgressView {
        AddProgressView::Done(
            Err(located_error(self.input, self.probe, self.settings.git_dir, kind, Some(reason))),
        )
    }

    /// The end with this file added.
    pub open spec fn finish(self, outcome: Outcome, size: u64) -> AddProgressView {
        AddProgressView::Done(
            Ok(
                AddedFileView {
                    relative_path: self.relative,
                    outcome,
                    file_size_bytes: size,
                    blake3_checksum: self.hash,
                    absolute_path: self.absolute,
                },
            ),
        )
    }

    /// The sidecar record that is written for this file with the time stamp
    /// `time_stamp`.
    pub open spec fn record(self, time_stamp: Seq<char>) -> MetadataView {
        MetadataView {
            blake3_checksum: self.hash,
            file_size_bytes: self.size,
            time_stamp,
            message: self.message,
            saved_by: self.owner,
        }
    }

    /// What follows a failure of the copy into the store: in strict mode the
    /// sidecar is taken back first, else the failure is the file's result.
    pub open spec fn store_failed(self, kind: FileErrorType, message: Option<Seq<char>>) -> AddProgressView {
        if self.strict {
            AddProgressView::Pending(
                AddFileView {
                    stage: AddStage::RemovingSidecar,
                    failure: kind,
                    failure_message: message,
                    ..self
                },
                RequestView::Remove { path: sidecar_path_of(self.input) },
            )
        } else {
            self.fail(kind, message)
        }
    }

    /// What follows a step of the copy into the store.
    pub open spec fn store_step(self, step: CopyStepView) -> AddProgressView {
        match step {
            CopyStepView::Ask(stage, request) => AddProgressView::Pending(
                AddFileView { stage: AddStage::Storing(stage), ..self },
                request,
            ),
            CopyStepView::Done => self.finish(Outcome::Copied, self.size),
            CopyStepView::Failed(kind, message) => self.store_failed(kind, message),
        }
    }

    /// What follows once the file is located.
    pub open spec fn located(self, p: PathProbeView) -> AddProgressView {
        let root = self.settings.git_dir;
        match absolute_path_of(self.input, p, root) {
            Err(e) => AddProgressView::Done(Err(e)),
            Ok(absolute) => match relative_path_of(self.input, p, root) {
                Err(e) => AddProgressView::Done(Err(e)),
                Ok(relative) => match in_repo_verdict(self.input, p.canonical, p.absolute, root) {
                    Err(e) => AddProgressView::Done(Err(e)),
                    Ok(_) => if p.is_dir {
                        AddProgressView::Done(
                            Err(
                                located_error(
                                    self.input,
                                    p,
                                    root,
                                    FileErrorType::PathIsDirectory,
                                    None,
                                ),
                            ),
                        )
                    } else {
                        AddProgressView::Pending(
                            AddFileView {
                                stage: AddStage::Hashing,
                                relative,
                                absolute,
                                probe: p,
                                ..self
                            },
                            RequestView::Hash { path: self.input },
                        )
                    },
                },
            },
        }
    }

    /// What follows once the sidecar is written: the entry in the ignore
    /// file beside the tracked file.
    pub open spec fn saved(self) -> AddProgressView {
        match entry_request(self.input, self.absolute, self.probe.absolute) {
            Err(text) => self.fail(FileErrorType::GitIgnoreNotAdded, Some(text)),
            Ok(request) => AddProgressView::Pending(
                AddFileView { stage: AddStage::Ignoring, ..self },
                request,
            ),
        }
    }
}

/// The first move: locate the file.
pub open spec fn add_start(
    settings: SettingsView,
    message: Seq<char>,
    strict: bool,
    input: Seq<char>,
) -> AddProgressView {
    AddProgressView::Pending(
        AddFileView {
            settings,
            message,
            strict,
            input,
            stage: AddStage::Locating,
            relative: Seq::empty(),
            absolute: Seq::empty(),
            probe: unknown_probe(),
            hash: Seq::empty(),
            size: 0,
            owner: Seq::empty(),
            storage_path: Seq::empty(),
            failure: FileErrorType::FileNotCopied,
            failure_message: None,
        },
        RequestView::Locate { path: input, sidecar: sidecar_path_of(input) },
    )
}

/// The move after an answer.
///
/// The file is located: its path must resolve, have a path relative to the
/// repository, lie in the repository, and be no directory. It is hashed; a
/// digest of fewer than two characters names no place in the store and
/// counts as none. Where its sidecar holds the same digest, the file is
/// `Present`, and nothing is written. Else its size, its owner and the time
/// are asked for, the sidecar is written, the ignore file is seen to, and the
/// store is asked whether the object is there: if so the file is `Present`,
/// if not it is copied and is `Copied`. A failure of the copy is the file's
/// error; in strict mode the sidecar and what there is of the copy are
/// deleted before it is reported.
pub open spec fn add_next(m: AddFileView, reply: ReplyView) -> AddProgressView {
    match m.stage {
        AddStage::Locating => match reply {
            ReplyView::Located(p) => m.located(p),
            _ => AddProgressView::Done(
                Err(
                    FileErrorView {
                        relative_path: None,
                        absolute_path: None,
                        error: FileErrorType::AbsolutePathNotFound,
                        error_message: reply.reason(),
                        input: m.input,
                    },
                ),
            ),
        },
        AddStage::Hashing => match reply {
            ReplyView::Text(h) => if h.len() >= 2 {
                AddProgressView::Pending(
                    AddFileView { stage: AddStage::Loading, hash: h, ..m },
                    RequestView::LoadMetadata { path: sidecar_path_of(m.input) },
                )
            } else {
                m.fail(FileErrorType::HashNotFound, None)
            },
            _ => m.fail(FileErrorType::HashNotFound, reply.reason()),
        },
        AddStage::Loading => match reply {
            ReplyView::Sidecar(record) => if record.blake3_checksum == m.hash {
                m.finish(Outcome::Present, record.file_size_bytes)
            } else {
                AddProgressView::Pending(
                    AddFileView { stage: AddStage::Sizing, ..m },
                    RequestView::Size { path: m.input },
                )
            },
            _ => AddProgressView::Pending(
                AddFileView { stage: AddStage::Sizing, ..m },
                RequestView::Size { path: m.input },
            ),
        },
        AddStage::Sizing => match reply {
            ReplyView::Size(n) => AddProgressView::Pending(
                AddFileView { stage: AddStage::Owning, size: n, ..m },
                RequestView::Owner { path: m.input },
            ),
            _ => m.fail_located(FileErrorType::SizeNotFound, reply.reason_text()),
        },
        AddStage::Owning => match reply {
            ReplyView::Text(o) => AddProgressView::Pending(
                AddFileView { stage: AddStage::Stamping, owner: o, ..m },
                RequestView::Clock,
            ),
            _ => m.fail_located(FileErrorType::OwnerNotFound, reply.reason_text()),
        },
        AddStage::Stamping => match reply {
            ReplyView::Text(t) => AddProgressView::Pending(
                AddFileView { stage: AddStage::Saving, ..m },
                RequestView::SaveMetadata { path: sidecar_path_of(m.input), metadata: m.record(t) },
            ),
            _ => m.fail_located(FileErrorType::MetadataNotSaved, reply.reason_text()),
        },
        AddStage::Saving => match reply {
            ReplyView::Done => m.saved(),
            _ => m.fail_located(FileErrorType::MetadataNotSaved, reply.reason_text()),
        },
        AddStage::Ignoring => match reply {
            ReplyView::Done => if m.hash.len() >= 2 {
                AddProgressView::Pending(
                    AddFileView {
                        stage: AddStage::Probing,
                        storage_path: storage_path_of(m.settings.storage_dir, m.hash),
                        ..m
                    },
                    RequestView::Exists { path: storage_path_of(m.settings.storage_dir, m.hash) },
                )
            } else {
                m.fail(FileErrorType::HashNotFound, None)
            },
            _ => m.fail(
                FileErrorType::GitIgnoreNotAdded,
                Some(ignore_error_text(m.input, reply.reason_text())),
            ),
        },
        AddStage::Probing => match reply {
            ReplyView::Flag(true) => m.finish(Outcome::Present, m.size),
            _ => m.store_step(copy_start(m.input, m.storage_path)),
        },
        AddStage::Storing(stage) => m.store_step(
            copy_next(stage, reply, m.storage_path, m.settings.permissions, m.settings.group),
        ),
        AddStage::RemovingSidecar => AddProgressView::Pending(
            AddFileView { stage: AddStage::RemovingStored, ..m },
            RequestView::Remove { path: m.storage_path },
        ),
        AddStage::RemovingStored => m.fail(m.failure, m.failure_message),
    }
}

impl AddFile {
    /// Starts the adding of `input` under `settings`, with `message` for the
    /// sidecar.
    pub fn start(settings: Settings, message: String, strict: bool, input: String) -> (p:
        AddProgress)
        ensures
            p@ == add_start(settings@, message@, strict, input@),
    {
        let request = Request::Locate { path: input.clone(), sidecar: metadata_path(&input) };
        AddProgress::Pending(
            AddFile {
                settings,
                message,
                strict,
                input,
                stage: AddStage::Locating,
                relative: String::new(),
                absolute: String::new(),
                probe: PathProbe::unknown(),
                hash: String::new(),
                size: 0,
                owner: String::new(),
                storage_path: String::new(),
                failure: FileErrorType::FileNotCopied,
                failure_message: None,
            },
            request,
        )
    }

    fn error(&self, kind: FileErrorType, message: Option<String>) -> (e: FileError)
        ensures
            e@ == self@.error(kind, opt_text(message)),
    {
        FileError {
            relative_path: Some(self.relative.clone()),
            absolute_path: Some(self.absolute.clone()),
            error: kind,
            error_message: message,
            input: self.input.clone(),
        }
    }

    fn fail(self, kind: FileErrorType, message: Option<String>) -> (p: AddProgress)
        ensures
            p@ == self@.fail(kind, opt_text(message)),
    {
        AddProgress::Done(Err(self.error(kind, message)))
    }

    fn finish(self, outcome: Outcome, size: u64) -> (p: AddProgress)
        ensures
            p@ == self@.finish(outcome, size),
    {
        AddProgress::Done(
            Ok(
                AddedFile {
                    relative_path: self.relative,
                    outcome,
                    file_size_bytes: size,
                    blake3_checksum: self.hash,
                    absolute_path: self.absolute,
                },
            ),
        )
    }

    fn ask(self, stage: AddStage, request: Request) -> (p: AddProgress)
        ensures
            p@ == AddProgressView::Pending(AddFileView { stage, ..self@ }, request@),
    {
        let mut m = self;
        m.stage = stage;
        AddProgress::Pending(m, request)
    }

    fn store_failed(self, kind: FileErrorType, message: Option<String>) -> (p: AddProgress)
        ensures
            p@ == self@.store_failed(kind, opt_text(message)),
    {
        if self.strict {
            let request = Request::Remove { path: metadata_path(&self.input) };
            let mut m = self;
            m.stage = AddStage::RemovingSidecar;
            m.failure = kind;
            m.failure_message = message;
            AddProgress::Pending(m, request)
        } else {
            self.fail(kind, message)
        }
    }

    fn store_step(self, step: CopyStep) -> (p: AddProgress)
        ensures
            p@ == self@.store_step(step@),
    {
        match step {
            CopyStep::Ask(stage, request) => self.ask(AddStage::Storing(stage), request),
            CopyStep::Done => {
                let size = self.size;
                self.finish(Outcome::Copied, size)
            },
            CopyStep::Failed(kind, message) => self.store_failed(kind, message),
        }
    }

    fn located(self, probe: PathProbe) -> (p: AddProgress)
        ensures
            p@ == self@.located(probe@),
    {
        let absolute = match get_absolute_path(&self.input, &probe, &self.settings.git_dir) {
            Ok(a) => a,
            Err(e) => {
                return AddProgress::Done(Err(e));
            },
        };
        let relative = match get_relative_path_to_wd(&self.input, &probe, &self.settings.git_dir) {
            Ok(r) => r,
            Err(e) => {
                return AddProgress::Done(Err(e));
            },
        };
        match check_file_in_git_repo(
            &self.input,
            &probe.canonical,
            &probe.absolute,
            &self.settings.git_dir,
        ) {
            Ok(_) => {},
            Err(e) => {
                return AddProgress::Done(Err(e));
            },
        }
        match check_if_dir(&self.input, &probe, &self.settings.git_dir) {
            Ok(_) => {},
            Err(e) => {
                return AddProgress::Done(Err(e));
            },
        }
        let request = Request::Hash { path: self.input.clone() };
        let mut m = self;
        m.stage = AddStage::Hashing;
        m.relative = relative;
        m.absolute = absolute;
        m.probe = probe;
        AddProgress::Pending(m, request)
    }

    fn not_saved(self, reason: String) -> (p: AddProgress)
        ensures
            p@ == self@.fail_located(FileErrorType::MetadataNotSaved, reason@),
    {
        match save(&self.input, &self.probe, &self.settings.git_dir, Err(reason)) {
            Ok(_) => self.saved(),
            Err(e) => AddProgress::Done(Err(e)),
        }
    }

    fn saved(self) -> (p: AddProgress)
        ensures
            p@ == self@.saved(),
    {
        match add_gitignore_entry(&self.input, &self.absolute, &self.probe.absolute) {
            Err(text) => self.fail(FileErrorType::GitIgnoreNotAdded, Some(text)),
            Ok(request) => self.ask(AddStage::Ignoring, request),
        }
    }

    /// Goes on with the answer to the last request.
    pub fn step(self, reply: Reply) -> (p: AddProgress)
        ensures
            p@ == add_next(self@, reply@),
    {
        match self.stage {
            AddStage::Locating => match reply {
                Reply::Located(probe) => self.located(probe),
                other => AddProgress::Done(
                    Err(
                        FileError {
                            relative_path: None,
                            absolute_path: None,
                            error: FileErrorType::AbsolutePathNotFound,
                            error_message: other.reason(),
                            input: self.input,
                        },
                    ),
                ),
            },
            AddStage::Hashing => match reply {
                Reply::Text(h) => {
                    if h.as_str().unicode_len() >= 2 {
                        let request = Request::LoadMetadata { path: metadata_path(&self.input) };
                        let mut m = self;
                        m.stage = AddStage::Loading;
                        m.hash = h;
                        AddProgress::Pending(m, request)
                    } else {
                        self.fail(FileErrorType::HashNotFound, None)
                    }
                },
                other => {
                    let reason = other.reason();
                    self.fail(FileErrorType::HashNotFound, reason)
                },
            },
            AddStage::Loading => {
                match reply {
                    Reply::Sidecar(record) => {
                        if record.blake3_checksum == self.hash {
                            return self.finish(Outcome::Present, record.file_size_bytes);
                        }
                    },
                    _ => {},
                }
                let request = Request::Size { path: self.input.clone() };
                self.ask(AddStage::Sizing, request)
            },
            AddStage::Sizing => match get_file_size(
                &self.input,
                &self.probe,
                &self.settings.git_dir,
                reply.as_size(),
            ) {
                Ok(n) => {
                    let request = Request::Owner { path: self.input.clone() };
                    let mut m = self;
                    m.stage = AddStage::Owning;
                    m.size = n;
                    AddProgress::Pending(m, request)
                },
                Err(e) => AddProgress::Done(Err(e)),
            },
            AddStage::Owning => {
                let owner = match reply.into_text() {
                    Ok(o) => Ok(Some(o)),
                    Err(e) => Err(e),
                };
                match get_user_name(&self.input, &self.probe, &self.settings.git_dir, owner) {
                    Ok(o) => {
                        let mut m = self;
                        m.stage = AddStage::Stamping;
                        m.owner = o;
                        AddProgress::Pending(m, Request::Clock)
                    },
                    Err(e) => AddProgress::Done(Err(e)),
                }
            },
            AddStage::Stamping => match reply {
                Reply::Text(t) => {
                    let request = Request::SaveMetadata {
                        path: metadata_path(&self.input),
                        metadata: Metadata {
                            blake3_checksum: self.hash.clone(),
                            file_size_bytes: self.size,
                            time_stamp: t,
                            message: self.message.clone(),
                            saved_by: self.owner.clone(),
                        },
                    };
                    self.ask(AddStage::Saving, request)
                },
                other => self.not_saved(other.reason_text()),
            },
            AddStage::Saving => match save(
                &self.input,
                &self.probe,
                &self.settings.git_dir,
                reply.as_done(),
            ) {
                Ok(_) => self.saved(),
                Err(e) => AddProgress::Done(Err(e)),
            },
            AddStage::Ignoring => match reply {
                Reply::Done => {
                    if self.hash.as_str().unicode_len() >= 2 {
                        let place = get_storage_path(&self.settings.storage_dir, &self.hash);
                        let request = Request::Exists { path: place.clone() };
                        let mut m = self;
                        m.stage = AddStage::Probing;
                        m.storage_path = place;
                        AddProgress::Pending(m, request)
                    } else {
                        self.fail(FileErrorType::HashNotFound, None)
                    }
                },
                other => {
                    let text = make_ignore_error_text(&self.input, &other.reason_text());
                    self.fail(FileErrorType::GitIgnoreNotAdded, Some(text))
                },
            },
            AddStage::Probing => match reply {
                Reply::Flag(true) => {
                    let size = self.size;
                    self.finish(Outcome::Present, size)
                },
                _ => {
                    let step = copy_file_to_storage_directory(&self.input, &self.storage_path);
                    self.store_step(step)
                },
            },
            AddStage::Storing(stage) => {
                let step = copy_step(
                    stage,
                    &reply,
                    &self.storage_path,
                    &self.settings.permissions,
                    &self.settings.group,
                );
                self.store_step(step)
            },
            AddStage::RemovingSidecar => {
                let request = Request::Remove { path: self.storage_path.clone() };
                self.ask(AddStage::RemovingStored, request)
            },
            AddStage::RemovingStored => {
                let kind = self.failure;
                let message = self.failure_message.clone();
                self.fail(kind, message)
            },
        }
    }
}

/// The first of the first `upto` files that was not found, if there is one.
/// A file without an answer counts as not found.
pub open spec fn first_missing(resolved: Seq<Result<String, String>>, upto: int) -> Option<int>
    decreases upto,
{
    if upto <= 0 {
        None
    } else {
        match first_missing(resolved, upto - 1) {
            Some(i) => Some(i),
            None => if upto - 1 < resolved.len() && resolved[upto - 1] is Ok {
                None
            } else {
                Some(upto - 1)
            },
        }
    }
}

/// What the first file that was not found is: one of the files looked at,
/// not found, and with every file before it found. Where there is none,
/// every file looked at was found.
pub proof fn lemma_first_missing(resolved: Seq<Result<String, String>>, upto: int)
    ensures
        match first_missing(resolved, upto) {
            Some(i) => {
                &&& 0 <= i < upto
                &&& !(i < resolved.len() && resolved[i] is Ok)
                &&& forall|j: int| 0 <= j < i ==> j < resolved.len() && resolved[j] is Ok
            },
            None => forall|j: int| 0 <= j < upto ==> j < resolved.len() && resolved[j] is Ok,
        },
    decreases upto,
{
    if upto > 0 {
        lemma_first_missing(resolved, upto - 1);
    }
}

/// The error of a batch that names a file that does not exist.
pub open spec fn missing_file_error(file: Seq<char>, reason: Seq<char>) -> BatchErrorView {
    BatchErrorView {
        error: BatchErrorType::AnyFilesDNE,
        error_message: file + " not found: "@ + reason,
    }
}

/// The reason why the file at position `i` was not found.
pub open spec fn missing_reason(resolved: Seq<Result<String, String>>, i: int) -> Seq<char> {
    if 0 <= i < resolved.len() {
        match resolved[i] {
            Err(e) => e@,
            Ok(_) => Seq::empty(),
        }
    } else {
        Seq::empty()
    }
}

/// The views of a list of files in progress.
pub open spec fn progress_views(v: Seq<AddProgress>) -> Seq<AddProgressView> {
    v.map_values(|p: AddProgress| p@)
}

/// An add of `files`: where each of them was found, one adding per file, in
/// order and each at its first move; else the error of the first that was
/// not found, and nothing is begun.
pub open spec fn add_batch(
    files: Seq<Seq<char>>,
    resolved: Seq<Result<String, String>>,
    settings: SettingsView,
    message: Seq<char>,
    strict: bool,
) -> Result<Seq<AddProgressView>, BatchErrorView> {
    match first_missing(resolved, files.len() as int) {
        Some(i) => Err(missing_file_error(files[i], missing_reason(resolved, i))),
        None => Ok(Seq::new(files.len(), |i: int| add_start(settings, message, strict, files[i]))),
    }
}

/// The view of the result of starting a batch.
pub open spec fn add_batch_view(r: Result<Vec<AddProgress>, BatchError>) -> Result<
    Seq<AddProgressView>,
    BatchErrorView,
> {
    match r {
        Ok(v) => Ok(progress_views(v@)),
        Err(e) => Err(e@),
    }
}

proof fn lemma_first_missing_from(resolved: Seq<Result<String, String>>, i: int, n: int)
    requires
        0 <= i < n,
        first_missing(resolved, i).is_none(),
        !(i < resolved.len() && resolved[i] is Ok),
    ensures
        first_missing(resolved, n) == Some(i),
    decreases n - i,
{
    if n > i + 1 {
        lemma_first_missing_from(resolved, i, n - 1);
    }
}

/// Starts an add of `files` under `settings`. `resolved` holds, for each
/// file in order, its resolved path, or why it could not be resolved.
pub fn add(
    files: &Vec<String>,
    resolved: &Vec<Result<String, String>>,
    settings: &Settings,
    message: &String,
    strict: bool,
) -> (r: Result<Vec<AddProgress>, BatchError>)
    ensures
        add_batch_view(r) == add_batch(
            crate::text::texts(files@),
            resolved@,
            settings@,
            message@,
            strict,
        ),
{
    let ghost names = crate::text::texts(files@);
    let mut i: usize = 0;
    while i < files.len()
        invariant
            i <= files.len(),
            names == crate::text::texts(files@),
            first_missing(resolved@, i as int).is_none(),
        decreases files.len() - i,
    {
        let found = i < resolved.len() && match &resolved[i] {
            Ok(_) => true,
            Err(_) => false,
        };
        if !found {
            let mut m = files[i].clone();
            m.append(" not found: ");
            if i < resolved.len() {
                match &resolved[i] {
                    Err(e) => {
                        m.append(e.as_str());
                    },
                    Ok(_) => {},
                }
            }
            proof {
                lemma_first_missing_from(resolved@, i as int, files@.len() as int);
                assert(names[i as int] == files@[i as int]@);
                assert(m@ =~= files@[i as int]@ + " not found: "@ + missing_reason(
                    resolved@,
                    i as int,
                ));
            }
            return Err(BatchError { error: BatchErrorType::AnyFilesDNE, error_message: m });
        }
        i += 1;
    }
    let mut out: Vec<AddProgress> = Vec::new();
    let mut k: usize = 0;
    while k < files.len()
        invariant
            k <= files.len(),
            out@.len() == k,
            names == crate::text::texts(files@),
            forall|j: int|
                0 <= j < k ==> (#[trigger] out@[j])@ == add_start(
                    settings@,
                    message@,
                    strict,
                    names[j],
                ),
        decreases files.len() - k,
    {
        let p = AddFile::start(settings.clone(), message.clone(), strict, files[k].clone());
        assert(names[k as int] == files@[k as int]@);
        out.push(p);
        k += 1;
    }
    proof {
        let want = Seq::new(
            names.len(),
            |i: int| add_start(settings@, message@, strict, names[i]),
        );
        assert(progress_views(out@) =~= want);
    }
    Ok(out)
}

} // verus!
