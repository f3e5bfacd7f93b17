//! The status of a file: whether its local copy is missing, differs from
//! what was added, or is current. Asking for it changes nothing.

use vstd::prelude::*;
use crate::text::opt_text;
use crate::outcome::Status;
use crate::error::{FileError, FileErrorType, FileErrorView};
use crate::exchange::{Request, RequestView, Reply, ReplyView};
use crate::file::{Metadata, MetadataView, PathProbe, PathProbeView, sidecar_path_of,
    metadata_path, absolute_hint, relative_hint, located_error, make_located_error, unknown_probe,
    load, try_to_get_abs_path, try_to_get_rel_path};

verus! {

/// The status of one tracked file, with what its sidecar records.
#[derive(Debug, PartialEq, Eq)]
pub struct FileStatus {
    pub relative_path: Option<String>,
    pub status: Status,
    pub size: u64,
    pub add_time: String,
    pub saved_by: String,
    pub message: String,
    pub absolute_path: Option<String>,
    pub blake3_checksum: String,
}

/// What a [`FileStatus`] holds, with every text as its characters.
pub struct FileStatusView {
    pub relative_path: Option<Seq<char>>,
    pub status: Status,
    pub size: u64,
    pub add_time: Seq<char>,
    pub saved_by: Seq<char>,
    pub message: Seq<char>,
    pub absolute_path: Option<Seq<char>>,
    pub blake3_checksum: Seq<char>,
}

impl View for FileStatus {
    type V = FileStatusView;

    open spec fn view(&self) -> FileStatusView {
        FileStatusView {
            relative_path: opt_text(self.relative_path),
            status: self.status,
            size: self.size,
            add_time: self.add_time@,
            saved_by: self.saved_by@,
            message: self.message@,
            absolute_path: opt_text(self.absolute_path),
            blake3_checksum: self.blake3_checksum@,
        }
    }
}

/// Where the asking stands: which answer is awaited.
#[derive(Clone, Copy, PartialEq, Eq, Debug, Structural)]
pub enum StatusStage {
    Locating,
    CheckingSidecar,
    Loading,
    Probing,
    Hashing,
}

/// The asking for the status of one file.
#[derive(Debug, PartialEq, Eq)]
pub struct StatusFile {
    pub git_dir: String,
    pub input: String,
    pub stage: StatusStage,
    /// What was found when the file was located.
    pub probe: PathProbe,
    pub record: Metadata,
}

/// What a [`StatusFile`] holds, with every text as its characters.
pub struct StatusFileView {
    pub git_dir: Seq<char>,
    pub input: Seq<char>,
    pub stage: StatusStage,
    pub probe: PathProbeView,
    pub record: MetadataView,
}

impl View for StatusFile {
    type V = StatusFileView;

    open spec fn view(&self) -> StatusFileView {
        StatusFileView {
            git_dir: self.git_dir@,
            input: self.input@,
            stage: self.stage,
            probe: self.probe@,
            record: self.record@,
        }
    }
}

/// The asking goes on with a request, or it is done with the file's result.
#[derive(Debug, PartialEq, Eq)]
pub enum StatusProgress {
    Pending(StatusFile, Request),
    Done(Result<FileStatus, FileError>),
}

/// What a [`StatusProgress`] holds, with every text as its characters.
pub enum StatusProgressView {
    Pending(StatusFileView, RequestView),
    Done(Result<FileStatusView, FileErrorView>),
}

impl View for StatusProgress {
    type V = StatusProgressView;

    open spec fn view(&self) -> StatusProgressView {
        match *self {
            StatusProgress::Pending(m, r) => StatusProgressView::Pending(m@, r@),
            StatusProgress::Done(Ok(f)) => StatusProgressView::Done(Ok(f@)),
            StatusProgress::Done(Err(e)) => StatusProgressView::Done(Err(e@)),
        }
    }
}

/// The status of a file whose local copy exists or not, whose digest, where
/// it could be computed, is `local`, and whose sidecar holds `recorded`:
/// `Absent` without a local copy; `Current` where the local digest is the
/// recorded one; `Unsynced` where it is another or could not be computed.
pub open spec fn classify(present: bool, local: Option<Seq<char>>, recorded: Seq<char>) -> Status {
    if !present {
        Status::Absent
    } else if local == Some(recorded) {
        Status::Current
    } else {
        Status::Unsynced
    }
}

/// The detail of the error of a file that was never added.
pub open spec fn not_added_text() -> Seq<char> {
    "metadata file not found - add the file to dvs to get status"@
}

impl StatusFileView {
    /// An error of this file, with the best that is known of its place.
    pub open spec fn fail(self, kind: FileErrorType, message: Option<Seq<char>>) -> StatusProgressView {
        StatusProgressView::Done(
            Err(located_error(self.input, self.probe, self.git_dir, kind, message)),
        )
    }

    /// The end with the file's status.
    pub open spec fn finish(self, status: Status) -> StatusProgressView {
        StatusProgressView::Done(
            Ok(
                FileStatusView {
                    relative_path: relative_hint(self.probe, self.git_dir),
                    status,
                    size: self.record.file_size_bytes,
                    add_time: self.record.time_stamp,
                    saved_by: self.record.saved_by,
                    message: self.record.message,
                    absolute_path: absolute_hint(self.probe),
                    blake3_checksum: self.record.blake3_checksum,
                },
            ),
        )
    }
}

/// The first move: locate the file.
pub open spec fn status_start(git_dir: Seq<char>, input: Seq<char>) -> StatusProgressView {
    StatusProgressView::Pending(
        StatusFileView {
            git_dir,
            input,
            stage: StatusStage::Locating,
            probe: unknown_probe(),
            record: MetadataView {
                blake3_checksum: Seq::empty(),
                file_size_bytes: 0,
                time_stamp: Seq::empty(),
                message: Seq::empty(),
                saved_by: Seq::empty(),
            },
        },
        RequestView::Locate { path: input, sidecar: sidecar_path_of(input) },
    )
}

/// The move after an answer.
///
/// The file is located and must be no directory. Its sidecar must exist,
/// else the file was never added, and must be readable. Then the file is
/// classified: `Absent` where there is no local copy; else the local copy is
/// hashed, and it is `Current` where its digest is the recorded one and
/// `Unsynced` where it is not or where there is no digest.
pub open spec fn status_next(m: StatusFileView, reply: ReplyView) -> StatusProgressView {
    match m.stage {
        StatusStage::Locating => match reply {
            ReplyView::Located(p) => {
                let located = StatusFileView { probe: p, ..m };
                if p.is_dir {
                    located.fail(FileErrorType::PathIsDirectory, None)
                } else {
                    StatusProgressView::Pending(
                        StatusFileView { stage: StatusStage::CheckingSidecar, ..located },
                        RequestView::Exists { path: sidecar_path_of(m.input) },
                    )
                }
            },
            _ => m.fail(FileErrorType::AbsolutePathNotFound, reply.reason()),
        },
        StatusStage::CheckingSidecar => match reply {
            ReplyView::Flag(true) => StatusProgressView::Pending(
                StatusFileView { stage: StatusStage::Loading, ..m },
                RequestView::LoadMetadata { path: sidecar_path_of(m.input) },
            ),
            _ => m.fail(FileErrorType::FileNotAdded, Some(not_added_text())),
        },
        StatusStage::Loading => match reply {
            ReplyView::Sidecar(record) => StatusProgressView::Pending(
                StatusFileView { stage: StatusStage::Probing, record, ..m },
                RequestView::Exists { path: m.input },
            ),
            _ => m.fail(FileErrorType::MetadataNotLoaded, Some(reply.reason_text())),
        },
        StatusStage::Probing => match reply {
            ReplyView::Flag(true) => StatusProgressView::Pending(
                StatusFileView { stage: StatusStage::Hashing, ..m },
                RequestView::Hash { path: m.input },
            ),
            _ => m.finish(classify(false, None, m.record.blake3_checksum)),
        },
        StatusStage::Hashing => m.finish(
            classify(
                true,
                match reply {
                    ReplyView::Text(h) => Some(h),
                    _ => None,
                },
                m.record.blake3_checksum,
            ),
        ),
    }
}

/// Starts the asking for the status of `local_path` in the repository at
/// `git_dir`.
pub fn status_file(local_path: String, git_dir: String) -> (p: StatusProgress)
    ensures
        p@ == status_start(git_dir@, local_path@),
{
    let request = Request::Locate { path: local_path.clone(), sidecar: metadata_path(&local_path) };
    StatusProgress::Pending(
        StatusFile {
            git_dir,
            input: local_path,
            stage: StatusStage::Locating,
            probe: PathProbe::unknown(),
            record: Metadata {
                blake3_checksum: String::new(),
                file_size_bytes: 0,
                time_stamp: String::new(),
                message: String::new(),
                saved_by: String::new(),
            },
        },
        request,
    )
}

impl StatusFile {
    fn fail(self, kind: FileErrorType, message: Option<String>) -> (p: StatusProgress)
        ensures
            p@ == self@.fail(kind, opt_text(message)),
    {
        StatusProgress::Done(
            Err(make_located_error(&self.input, &self.probe, &self.git_dir, kind, message)),
        )
    }

    fn finish(self, status: Status) -> (p: StatusProgress)
        ensures
            p@ == self@.finish(status),
    {
        StatusProgress::Done(
            Ok(
                FileStatus {
                    relative_path: try_to_get_rel_path(&self.probe, &self.git_dir),
                    status,
                    size: self.record.file_size_bytes,
                    add_time: self.record.time_stamp,
                    saved_by: self.record.saved_by,
                    message: self.record.message,
                    absolute_path: try_to_get_abs_path(&self.probe),
                    blake3_checksum: self.record.blake3_checksum,
                },
            ),
        )
    }

    fn ask(self, stage: StatusStage, request: Request) -> (p: StatusProgress)
        ensures
            p@ == StatusProgressView::Pending(StatusFileView { stage, ..self@ }, request@),
    {
        let mut m = self;
        m.stage = stage;
        StatusProgress::Pending(m, request)
    }

    /// Goes on with the answer to the last request.
    pub fn step(self, reply: Reply) -> (p: StatusProgress)
        ensures
            p@ == status_next(self@, reply@),
            p@ matches StatusProgressView::Pending(_, request) ==> !request.is_write(),
    {
        match self.stage {
            StatusStage::Locating => match reply {
                Reply::Located(probe) => {
                    let is_dir = probe.is_dir;
                    let mut m = self;
                    m.probe = probe;
                    if is_dir {
                        m.fail(FileErrorType::PathIsDirectory, None)
                    } else {
                        let request = Request::Exists { path: metadata_path(&m.input) };
                        m.ask(StatusStage::CheckingSidecar, request)
                    }
                },
                other => {
                    let reason = other.reason();
                    self.fail(FileErrorType::AbsolutePathNotFound, reason)
                },
            },
            StatusStage::CheckingSidecar => match reply {
                Reply::Flag(true) => {
                    let request = Request::LoadMetadata { path: metadata_path(&self.input) };
                    self.ask(StatusStage::Loading, request)
                },
                _ => self.fail(
                    FileErrorType::FileNotAdded,
                    Some(
                        String::from_str(
                            "metadata file not found - add the file to dvs to get status",
                        ),
                    ),
                ),
            },
            StatusStage::Loading => match load(
                &self.input,
                &self.probe,
                &self.git_dir,
                reply.into_sidecar(),
            ) {
                Ok(record) => {
                    let request = Request::Exists { path: self.input.clone() };
                    let mut m = self;
                    m.stage = StatusStage::Probing;
                    m.record = record;
                    StatusProgress::Pending(m, request)
                },
                Err(e) => StatusProgress::Done(Err(e)),
            },
            StatusStage::Probing => match reply {
                Reply::Flag(true) => {
                    let request = Request::Hash { path: self.input.clone() };
                    self.ask(StatusStage::Hashing, request)
                },
                _ => self.finish(Status::Absent),
            },
            StatusStage::Hashing => {
                let current = match reply {
                    Reply::Text(h) => h == self.record.blake3_checksum,
                    _ => false,
                };
                if current {
                    self.finish(Status::Current)
                } else {
                    self.finish(Status::Unsynced)
                }
            },
        }
    }
}

/// The views of a list of files in progress.
pub open spec fn progress_views(v: Seq<StatusProgress>) -> Seq<StatusProgressView> {
    v.map_values(|p: StatusProgress| p@)
}

/// Starts a status of `files` in the repository at `git_dir`: one asking per
/// file, in order and each at its first move.
pub fn status(files: &Vec<String>, git_dir: &String) -> (r: Vec<StatusProgress>)
    ensures
        progress_views(r@) == Seq::new(
            files@.len(),
            |i: int| status_start(git_dir@, files@[i]@),
        ),
{
    let mut out: Vec<StatusProgress> = Vec::new();
    let mut k: usize = 0;
    while k < files.len()
        invariant
            k <= files.len(),
            out@.len() == k,
            forall|j: int|
                0 <= j < k ==> (#[trigger] out@[j])@ == status_start(git_dir@, files@[j]@),
        decreases files.len() - k,
    {
        let p = status_file(files[k].clone(), git_dir.clone());
        out.push(p);
        k += 1;
    }
    proof {
        let want = Seq::new(files@.len(), |i: int| status_start(git_dir@, files@[i]@));
        assert(progress_views(out@) =~= want);
    }
    out
}

} // verus!
