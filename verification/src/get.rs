//! Getting a file: copying it out of the store unless the local copy is
//! there and current.

use vstd::prelude::*;
use crate::text::opt_text;
use crate::outcome::Outcome;
use crate::error::{BatchError, BatchErrorView, FileError, FileErrorType, FileErrorView};
use crate::config::{Settings, SettingsView};
use crate::exchange::{Request, RequestView, Reply, ReplyView};
use crate::file::{PathProbe, PathProbeView, sidecar_path_of, metadata_path, absolute_path_of,
    relative_path_of, located_error, make_located_error, unknown_probe, clone_result,
    get_absolute_path, get_relative_path_to_wd, get_file_size, first_untracked, missing_sidecar_error,
    check_meta_files_exist, lemma_first_untracked};
use crate::repo::{in_repo_verdict, check_file_in_git_repo};
use crate::hash::{storage_path_of, get_storage_path};
use crate::copy::{CopyStage, CopyStep, CopyStepView, copy_start, copy_next, copy, copy_step};

verus! {

/// A file that was retrieved.
#[derive(Debug, PartialEq, Eq)]
pub struct RetrievedFile {
    pub relative_path: String,
    pub outcome: Outcome,
    pub size: u64,
    pub absolute_path: String,
    pub blake3_checksum: String,
}

/// What a [`RetrievedFile`] holds, with every text as its characters.
pub struct RetrievedFileView {
    pub relative_path: Seq<char>,
    pub outcome: Outcome,
    pub size: u64,
    pub absolute_path: Seq<char>,
    pub blake3_checksum: Seq<char>,
}

impl View for RetrievedFile {
    type V = RetrievedFileView;

    open spec fn view(&self) -> RetrievedFileView {
        RetrievedFileView {
            relative_path: self.relative_path@,
            outcome: self.outcome,
            size: self.size,
            absolute_path: self.absolute_path@,
            blake3_checksum: self.blake3_checksum@,
        }
    }
}

/// Where the getting of one file stands: which answer is awaited.
#[derive(Clone, Copy, PartialEq, Eq, Debug, Structural)]
pub enum GetStage {
    Locating,
    Loading,
    Hashing,
    Probing,
    Storing(CopyStage),
    Relocating,
    Rehashing,
    Sizing,
}

/// The getting of one file.
#[derive(Debug, PartialEq, Eq)]
pub struct GetFile {
    pub settings: Settings,
    pub input: String,
    pub stage: GetStage,
    /// What was found when the file was last located.
    pub probe: PathProbe,
    /// The digest that the sidecar holds.
    pub recorded: String,
    /// The digest of the local copy; empty where it has none.
    pub local: String,
    pub outcome: Outcome,
    pub relative: String,
    pub absolute: String,
    pub hash: String,
}

/// What a [`GetFile`] holds, with every text as its characters.
pub struct GetFileView {
    pub settings: SettingsView,
    pub input: Seq<char>,
    pub stage: GetStage,
    pub probe: PathProbeView,
    pub recorded: Seq<char>,
    pub local: Seq<char>,
    pub outcome: Outcome,
    pub relative: Seq<char>,
    pub absolute: Seq<char>,
    pub hash: Seq<char>,
}

impl View for GetFile {
    type V = GetFileView;

    open spec fn view(&self) -> GetFileView {
        GetFileView {
            settings: self.settings@,
            input: self.input@,
            stage: self.stage,
            probe: self.probe@,
            recorded: self.recorded@,
            local: self.local@,
            outcome: self.outcome,
            relative: self.relative@,
            absolute: self.absolute@,
            hash: self.hash@,
        }
    }
}

/// The getting goes on with a request, or it is done with the file's result.
#[derive(Debug, PartialEq, Eq)]
pub enum GetProgress {
    Pending(GetFile, Request),
    Done(Result<RetrievedFile, FileError>),
}

/// What a [`GetProgress`] holds, with every text as its characters.
pub enum GetProgressView {
    Pending(GetFileView, RequestView),
    Done(Result<RetrievedFileView, FileErrorView>),
}

impl View for GetProgress {
    type V = GetProgressView;

    open spec fn view(&self) -> GetProgressView {
        match *self {
            GetProgress::Pending(m, r) => GetProgressView::Pending(m@, r@),
            GetProgress::Done(Ok(f)) => GetProgressView::Done(Ok(f@)),
            GetProgress::Done(Err(e)) => GetProgressView::Done(Err(e@)),
        }
    }
}

/// Whether the local copy is to be replaced from the store: it is missing,
/// or one of the two digests is empty, or the two differ.
pub open spec fn needs_copy(present: bool, recorded: Seq<char>, local: Seq<char>) -> bool {
    !present || recorded.len() == 0 || local.len() == 0 || local != recorded
}

impl GetFileView {
    /// An error of this file, with the best that was known of its place
    /// when it was last located.
    pub open spec fn error(self, kind: FileErrorType, message: Option<Seq<char>>) -> FileErrorView {
        located_error(self.input, self.probe, self.settings.git_dir, kind, message)
    }

    /// The end with an error of this file.
    pub open spec fn fail(self, kind: FileErrorType, message: Option<Seq<char>>) -> GetProgressView {
        GetProgressView::Done(Err(self.error(kind, message)))
    }

    /// The move to locating the file afresh, with its outcome settled.
    pub open spec fn settle(self, outcome: Outcome) -> GetProgressView {
        GetProgressView::Pending(
            GetFileView { stage: GetStage::Relocating, outcome, ..self },
            RequestView::Locate { path: self.input, sidecar: sidecar_path_of(self.input) },
        )
    }

    /// What follows a step of the copy out of the store.
    pub open spec fn store_step(self, step: CopyStepView) -> GetProgressView {
        match step {
            CopyStepView::Ask(stage, request) => GetProgressView::Pending(
                GetFileView { stage: GetStage::Storing(stage), ..self },
                request,
            ),
            CopyStepView::Done => self.settle(Outcome::Copied),
            CopyStepView::Failed(kind, message) => self.fail(kind, message),
        }
    }

    /// What follows once the file is first located.
    pub open spec fn located(self, p: PathProbeView) -> GetProgressView {
        let root = self.settings.git_dir;
        let m = GetFileView { probe: p, ..self };
        if p.is_dir {
            m.fail(FileErrorType::PathIsDirectory, None)
        } else {
            match p.sidecar_canonical {
                Err(e) => m.fail(FileErrorType::MetadataNotFound, Some(e)),
                Ok(_) => match in_repo_verdict(
                    sidecar_path_of(self.input),
                    p.sidecar_canonical,
                    p.sidecar_absolute,
                    root,
                ) {
                    Err(e) => GetProgressView::Done(Err(e)),
                    Ok(_) => GetProgressView::Pending(
                        GetFileView { stage: GetStage::Loading, ..m },
                        RequestView::LoadMetadata { path: sidecar_path_of(self.input) },
                    ),
                },
            }
        }
    }

    /// What follows once it is known whether the local copy exists.
    pub open spec fn probed(self, present: bool) -> GetProgressView {
        if needs_copy(present, self.recorded, self.local) {
            if self.recorded.len() >= 2 {
                self.store_step(
                    copy_start(
                        storage_path_of(self.settings.storage_dir, self.recorded),
                        self.input,
                    ),
                )
            } else {
                self.fail(FileErrorType::FileNotCopied, None)
            }
        } else {
            self.settle(Outcome::Present)
        }
    }

    /// What follows once the file is located afresh.
    pub open spec fn relocated(self, p: PathProbeView) -> GetProgressView {
        let root = self.settings.git_dir;
        match relative_path_of(self.input, p, root) {
            Err(e) => GetProgressView::Done(Err(e)),
            Ok(relative) => match absolute_path_of(self.input, p, root) {
                Err(e) => GetProgressView::Done(Err(e)),
                Ok(absolute) => GetProgressView::Pending(
                    GetFileView {
                        stage: GetStage::Rehashing,
                        relative,
                        absolute,
                        probe: p,
                        ..self
                    },
                    RequestView::Hash { path: self.input },
                ),
            },
        }
    }
}

/// The first move: locate the file.
pub open spec fn get_start(settings: SettingsView, input: Seq<char>) -> GetProgressView {
    GetProgressView::Pending(
        GetFileView {
            settings,
            input,
            stage: GetStage::Locating,
            probe: unknown_probe(),
            recorded: Seq::empty(),
            local: Seq::empty(),
            outcome: Outcome::Present,
            relative: Seq::empty(),
            absolute: Seq::empty(),
            hash: Seq::empty(),
        },
        RequestView::Locate { path: input, sidecar: sidecar_path_of(input) },
    )
}

/// The move after an answer.
///
/// The file is located: it must be no directory, and its sidecar must exist
/// and lie in the repository. The sidecar is read. The local copy is hashed,
/// a copy that cannot be hashed counting as one with an empty digest, and it
/// is asked whether the local copy exists. Where the local copy is missing,
/// or either digest is empty, or the two differ, the stored object is copied
/// into place and given the permission bits and the group, and the file is
/// `Copied`; a sidecar whose digest names no place in the store fails the
/// copy. Else the file is `Present`. Either way the file is then located
/// afresh, hashed and measured for its result.
pub open spec fn get_next(m: GetFileView, reply: ReplyView) -> GetProgressView {
    match m.stage {
        GetStage::Locating => match reply {
            ReplyView::Located(p) => m.located(p),
            _ => m.fail(FileErrorType::AbsolutePathNotFound, reply.reason()),
        },
        GetStage::Loading => match reply {
            ReplyView::Sidecar(record) => GetProgressView::Pending(
                GetFileView { stage: GetStage::Hashing, recorded: record.blake3_checksum, ..m },
                RequestView::Hash { path: m.input },
            ),
            _ => m.fail(FileErrorType::MetadataNotFound, reply.reason()),
        },
        GetStage::Hashing => GetProgressView::Pending(
            GetFileView {
                stage: GetStage::Probing,
                local: match reply {
                    ReplyView::Text(h) => h,
                    _ => Seq::empty(),
                },
                ..m
            },
            RequestView::Exists { path: m.input },
        ),
        GetStage::Probing => m.probed(reply == ReplyView::Flag(true)),
        GetStage::Storing(stage) => m.store_step(
            copy_next(stage, reply, m.input, m.settings.permissions, m.settings.group),
        ),
        GetStage::Relocating => match reply {
            ReplyView::Located(p) => m.relocated(p),
            _ => m.fail(FileErrorType::AbsolutePathNotFound, reply.reason()),
        },
        GetStage::Rehashing => match reply {
            ReplyView::Text(h) => GetProgressView::Pending(
                GetFileView { stage: GetStage::Sizing, hash: h, ..m },
                RequestView::Size { path: m.input },
            ),
            _ => m.fail(FileErrorType::HashNotFound, reply.reason()),
        },
        GetStage::Sizing => match reply {
            ReplyView::Size(n) => GetProgressView::Done(
                Ok(
                    RetrievedFileView {
                        relative_path: m.relative,
                        outcome: m.outcome,
                        size: n,
                        absolute_path: m.absolute,
                        blake3_checksum: m.hash,
                    },
                ),
            ),
            _ => m.fail(FileErrorType::SizeNotFound, Some(reply.reason_text())),
        },
    }
}

/// Starts the getting of `local_path` under `settings`.
pub fn get_file(local_path: String, settings: Settings) -> (p: GetProgress)
    ensures
        p@ == get_start(settings@, local_path@),
{
    let request = Request::Locate { path: local_path.clone(), sidecar: metadata_path(&local_path) };
    GetProgress::Pending(
        GetFile {
            settings,
            input: local_path,
            stage: GetStage::Locating,
            probe: PathProbe::unknown(),
            recorded: String::new(),
            local: String::new(),
            outcome: Outcome::Present,
            relative: String::new(),
            absolute: String::new(),
            hash: String::new(),
        },
        request,
    )
}

impl GetFile {
    fn fail(self, kind: FileErrorType, message: Option<String>) -> (p: GetProgress)
        ensures
            p@ == self@.fail(kind, opt_text(message)),
    {
        GetProgress::Done(
            Err(make_located_error(&self.input, &self.probe, &self.settings.git_dir, kind, message)),
        )
    }

    fn ask(self, stage: GetStage, request: Request) -> (p: GetProgress)
        ensures
            p@ == GetProgressView::Pending(GetFileView { stage, ..self@ }, request@),
    {
        let mut m = self;
        m.stage = stage;
        GetProgress::Pending(m, request)
    }

    fn settle(self, outcome: Outcome) -> (p: GetProgress)
        ensures
            p@ == self@.settle(outcome),
    {
        let request = Request::Locate {
            path: self.input.clone(),
            sidecar: metadata_path(&self.input),
        };
        let mut m = self;
        m.stage = GetStage::Relocating;
        m.outcome = outcome;
        GetProgress::Pending(m, request)
    }

    fn store_step(self, step: CopyStep) -> (p: GetProgress)
        ensures
            p@ == self@.store_step(step@),
    {
        match step {
            CopyStep::Ask(stage, request) => self.ask(GetStage::Storing(stage), request),
            CopyStep::Done => self.settle(Outcome::Copied),
            CopyStep::Failed(kind, message) => self.fail(kind, message),
        }
    }

    fn located(self, probe: PathProbe) -> (p: GetProgress)
        ensures
            p@ == self@.located(probe@),
    {
        let canonical = clone_result(&probe.sidecar_canonical);
        let absolute = clone_result(&probe.sidecar_absolute);
        let is_dir = probe.is_dir;
        let mut m = self;
        m.probe = probe;
        if is_dir {
            return m.fail(FileErrorType::PathIsDirectory, None);
        }
        match &canonical {
            Err(e) => {
                let reason = Some(e.clone());
                return m.fail(FileErrorType::MetadataNotFound, reason);
            },
            Ok(_) => {},
        }
        let sidecar = metadata_path(&m.input);
        match check_file_in_git_repo(
            &sidecar,
            &canonical,
            &absolute,
            &m.settings.git_dir,
        ) {
            Err(e) => GetProgress::Done(Err(e)),
            Ok(_) => m.ask(GetStage::Loading, Request::LoadMetadata { path: sidecar }),
        }
    }

    fn probed(self, present: bool) -> (p: GetProgress)
        ensures
            p@ == self@.probed(present),
    {
        let recorded_len = self.recorded.as_str().unicode_len();
        let local_len = self.local.as_str().unicode_len();
        if !present || recorded_len == 0 || local_len == 0 || self.local != self.recorded {
            if recorded_len >= 2 {
                let place = get_storage_path(&self.settings.storage_dir, &self.recorded);
                let step = copy(&place, &self.input);
                self.store_step(step)
            } else {
                self.fail(FileErrorType::FileNotCopied, None)
            }
        } else {
            self.settle(Outcome::Present)
        }
    }

    fn relocated(self, probe: PathProbe) -> (p: GetProgress)
        ensures
            p@ == self@.relocated(probe@),
    {
        let relative = match get_relative_path_to_wd(&self.input, &probe, &self.settings.git_dir) {
            Ok(r) => r,
            Err(e) => {
                return GetProgress::Done(Err(e));
            },
        };
        let absolute = match get_absolute_path(&self.input, &probe, &self.settings.git_dir) {
            Ok(a) => a,
            Err(e) => {
                return GetProgress::Done(Err(e));
            },
        };
        let request = Request::Hash { path: self.input.clone() };
        let mut m = self;
        m.probe = probe;
        m.stage = GetStage::Rehashing;
        m.relative = relative;
        m.absolute = absolute;
        GetProgress::Pending(m, request)
    }

    /// Goes on with the answer to the last request.
    pub fn step(self, reply: Reply) -> (p: GetProgress)
        ensures
            p@ == get_next(self@, reply@),
    {
        match self.stage {
            GetStage::Locating => match reply {
                Reply::Located(probe) => self.located(probe),
                other => {
                    let reason = other.reason();
                    self.fail(FileErrorType::AbsolutePathNotFound, reason)
                },
            },
            GetStage::Loading => match reply {
                Reply::Sidecar(record) => {
                    let request = Request::Hash { path: self.input.clone() };
                    let mut m = self;
                    m.stage = GetStage::Hashing;
                    m.recorded = record.blake3_checksum;
                    GetProgress::Pending(m, request)
                },
                other => {
                    let reason = other.reason();
                    self.fail(FileErrorType::MetadataNotFound, reason)
                },
            },
            GetStage::Hashing => {
                let local = match reply {
                    Reply::Text(h) => h,
                    _ => String::new(),
                };
                let request = Request::Exists { path: self.input.clone() };
                let mut m = self;
                m.stage = GetStage::Probing;
                m.local = local;
                GetProgress::Pending(m, request)
            },
            GetStage::Probing => {
                let present = match reply {
                    Reply::Flag(true) => true,
                    _ => false,
                };
                self.probed(present)
            },
            GetStage::Storing(stage) => {
                let step = copy_step(
                    stage,
                    &reply,
                    &self.input,
                    &self.settings.permissions,
                    &self.settings.group,
                );
                self.store_step(step)
            },
            GetStage::Relocating => match reply {
                Reply::Located(probe) => self.relocated(probe),
                other => {
                    let reason = other.reason();
                    self.fail(FileErrorType::AbsolutePathNotFound, reason)
                },
            },
            GetStage::Rehashing => match reply {
                Reply::Text(h) => {
                    let request = Request::Size { path: self.input.clone() };
                    let mut m = self;
                    m.stage = GetStage::Sizing;
                    m.hash = h;
                    GetProgress::Pending(m, request)
                },
                other => {
                    let reason = other.reason();
                    self.fail(FileErrorType::HashNotFound, reason)
                },
            },
            GetStage::Sizing => match get_file_size(
                &self.input,
                &self.probe,
                &self.settings.git_dir,
                reply.as_size(),
            ) {
                Ok(n) => GetProgress::Done(
                    Ok(
                        RetrievedFile {
                            relative_path: self.relative,
                            outcome: self.outcome,
                            size: n,
                            absolute_path: self.absolute,
                            blake3_checksum: self.hash,
                        },
                    ),
                ),
                Err(e) => GetProgress::Done(Err(e)),
            },
        }
    }
}

/// The views of a list of files in progress.
pub open spec fn progress_views(v: Seq<GetProgress>) -> Seq<GetProgressView> {
    v.map_values(|p: GetProgress| p@)
}

/// A get of `files`: where each of them has a sidecar, one getting per file,
/// in order and each at its first move; else the error of the first that has
/// none, and nothing is begun.
pub open spec fn get_batch(files: Seq<Seq<char>>, has_sidecar: Seq<bool>, settings: SettingsView) -> Result<
    Seq<GetProgressView>,
    BatchErrorView,
> {
    match first_untracked(has_sidecar, files.len() as int) {
        Some(i) => Err(missing_sidecar_error(files[i])),
        None => Ok(Seq::new(files.len(), |i: int| get_start(settings, files[i]))),
    }
}

/// The view of the result of starting a batch.
pub open spec fn get_batch_view(r: Result<Vec<GetProgress>, BatchError>) -> Result<
    Seq<GetProgressView>,
    BatchErrorView,
> {
    match r {
        Ok(v) => Ok(progress_views(v@)),
        Err(e) => Err(e@),
    }
}

/// Starts a get of `files` under `settings`. `has_sidecar` says of each file,
/// in order, whether its sidecar exists.
pub fn get(files: &Vec<String>, has_sidecar: &Vec<bool>, settings: &Settings) -> (r: Result<
    Vec<GetProgress>,
    BatchError,
>)
    ensures
        get_batch_view(r) == get_batch(crate::text::texts(files@), has_sidecar@, settings@),
{
    let ghost names = crate::text::texts(files@);
    match check_meta_files_exist(files, has_sidecar) {
        Err(e) => {
            proof {
                let i = first_untracked(has_sidecar@, files@.len() as int).unwrap();
                lemma_first_untracked(has_sidecar@, files@.len() as int);
                assert(names[i] == files@[i]@);
            }
            return Err(e);
        },
        Ok(_) => {},
    }
    let mut out: Vec<GetProgress> = Vec::new();
    let mut k: usize = 0;
    while k < files.len()
        invariant
            k <= files.len(),
            out@.len() == k,
            names == crate::text::texts(files@),
            forall|j: int| 0 <= j < k ==> (#[trigger] out@[j])@ == get_start(settings@, names[j]),
        decreases files.len() - k,
    {
        let p = get_file(files[k].clone(), settings.clone());
        assert(names[k as int] == files@[k as int]@);
        out.push(p);
        k += 1;
    }
    proof {
        let want = Seq::new(names.len(), |i: int| get_start(settings@, names[i]));
        assert(progress_views(out@) =~= want);
    }
    Ok(out)
}

} // verus!
