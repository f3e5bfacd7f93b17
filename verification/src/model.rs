//! A reference environment: a file system in the abstract, and what each
//! request does to it and is answered with. The laws of the engine are
//! stated of runs against this environment.

use vstd::prelude::*;
use crate::file::{MetadataView, PathProbeView};
use crate::exchange::{RequestView, ReplyView};
use crate::hash::blake3_hex;
use crate::ignore::with_entry;
use crate::add::{AddProgressView, AddedFileView, add_next, add_start};
use crate::get::{GetProgressView, RetrievedFileView, get_next, get_start};
use crate::status::{StatusProgressView, FileStatusView, status_next, status_start};
use crate::error::FileErrorView;
use crate::config::SettingsView;

verus! {

/// A file system in the abstract. Paths are texts, and a path is its own
/// resolved and absolute form.
pub struct World {
    /// The paths that are directories.
    pub dirs: Set<Seq<char>>,
    /// The bytes of every file, local files and stored objects alike.
    pub files: Map<Seq<char>, Seq<u8>>,
    /// The sidecar records, by the path of the sidecar.
    pub sidecars: Map<Seq<char>, MetadataView>,
    /// The texts of the ignore files.
    pub ignores: Map<Seq<char>, Seq<char>>,
    /// The permission bits that were set.
    pub modes: Map<Seq<char>, u32>,
    /// The groups that were set.
    pub groups: Map<Seq<char>, Seq<char>>,
    /// The name of the user.
    pub owner: Seq<char>,
    /// The time, as text.
    pub now: Seq<char>,
    /// The places that no copy can be written to.
    pub sealed: Set<Seq<char>>,
    /// The places whose permission bits cannot be set.
    pub mode_locked: Set<Seq<char>>,
    /// The places that cannot be handed to a group.
    pub group_locked: Set<Seq<char>>,
    /// The places that no sidecar can be written to.
    pub record_locked: Set<Seq<char>>,
}

/// The reason that the environment gives for what it does not allow.
pub open spec fn denied_text() -> Seq<char> {
    "Permission denied"@
}

/// The reason that the environment gives for what it does not find.
pub open spec fn missing_text() -> Seq<char> {
    "No such file or directory"@
}

impl World {
    /// Whether a file or a directory lies at `path`.
    pub open spec fn holds(self, path: Seq<char>) -> bool {
        self.dirs.contains(path) || self.files.contains_key(path)
    }

    /// Whether anything lies at `path`.
    pub open spec fn has(self, path: Seq<char>) -> bool {
        self.holds(path) || self.sidecars.contains_key(path)
    }

    /// The path resolved: itself where something lies there.
    pub open spec fn resolve(self, path: Seq<char>) -> Result<Seq<char>, Seq<char>> {
        if self.has(path) {
            Ok(path)
        } else {
            Err(missing_text())
        }
    }

    /// What is found out of where `path` and its sidecar lie.
    pub open spec fn locate(self, path: Seq<char>, sidecar: Seq<char>) -> PathProbeView {
        PathProbeView {
            canonical: self.resolve(path),
            absolute: Ok(path),
            sidecar_canonical: self.resolve(sidecar),
            sidecar_absolute: Ok(sidecar),
            is_dir: self.dirs.contains(path),
        }
    }

    /// The text of the ignore file at `path`; empty where there is none.
    pub open spec fn ignore_text(self, path: Seq<char>) -> Seq<char> {
        if self.ignores.contains_key(path) {
            self.ignores[path]
        } else {
            Seq::empty()
        }
    }

    /// The world without the local file at `path`.
    pub open spec fn without_file(self, path: Seq<char>) -> World {
        World { files: self.files.remove(path), ..self }
    }

    /// Whether a copy can be put at `place` and given the permission bits and
    /// the group of `settings`.
    pub open spec fn takes_copy(self, settings: SettingsView, place: Seq<char>) -> bool {
        &&& !self.sealed.contains(place)
        &&& !self.mode_locked.contains(place)
        &&& (settings.group is Some ==> !self.group_locked.contains(place))
    }

    /// The groups once a copy at `place` got the group of `settings`.
    pub open spec fn groups_with(self, settings: SettingsView, place: Seq<char>) -> Map<
        Seq<char>,
        Seq<char>,
    > {
        match settings.group {
            Some(g) => self.groups.insert(place, g),
            None => self.groups,
        }
    }

    /// The world with the bytes `bytes` in the file at `path`.
    pub open spec fn with_file(self, path: Seq<char>, bytes: Seq<u8>) -> World {
        World { files: self.files.insert(path, bytes), ..self }
    }

    /// What a request does to the world, and what it is answered with.
    ///
    /// The requests that make up the work on the hash cache and on an ignore
    /// file from the inside are no part of this environment: it answers
    /// `Hash` with the digest of the file's bytes, and `Ignore` by seeing to
    /// the entry.
    pub open spec fn respond(self, request: RequestView) -> (World, ReplyView) {
        match request {
            RequestView::Locate { path, sidecar } => (
                self,
                ReplyView::Located(self.locate(path, sidecar)),
            ),
            RequestView::Hash { path } => if self.files.contains_key(path) {
                (self, ReplyView::Text(blake3_hex(self.files[path])))
            } else {
                (self, ReplyView::Failed(missing_text()))
            },
            RequestView::LoadMetadata { path } => if self.sidecars.contains_key(path) {
                (self, ReplyView::Sidecar(self.sidecars[path]))
            } else {
                (self, ReplyView::Failed(missing_text()))
            },
            RequestView::SaveMetadata { path, metadata } => if self.record_locked.contains(path) {
                (self, ReplyView::Failed(denied_text()))
            } else {
                (World { sidecars: self.sidecars.insert(path, metadata), ..self }, ReplyView::Done)
            },
            RequestView::Size { path } => if self.files.contains_key(path) {
                (self, ReplyView::Size(self.files[path].len() as u64))
            } else {
                (self, ReplyView::Failed(missing_text()))
            },
            RequestView::Owner { path } => (self, ReplyView::Text(self.owner)),
            RequestView::Clock => (self, ReplyView::Text(self.now)),
            RequestView::Exists { path } => (self, ReplyView::Flag(self.has(path))),
            RequestView::Ignore { path, entry } => (
                World {
                    ignores: self.ignores.insert(path, with_entry(self.ignore_text(path), entry)),
                    ..self
                },
                ReplyView::Done,
            ),
            RequestView::Copy { from, to } => if self.files.contains_key(from)
                && !self.sealed.contains(to) {
                (World { files: self.files.insert(to, self.files[from]), ..self }, ReplyView::Done)
            } else {
                (
                    self,
                    ReplyView::Failed(
                        if self.sealed.contains(to) {
                            denied_text()
                        } else {
                            missing_text()
                        },
                    ),
                )
            },
            RequestView::SetPermissions { path, mode } => if self.mode_locked.contains(path) {
                (self, ReplyView::Failed(denied_text()))
            } else {
                (World { modes: self.modes.insert(path, mode), ..self }, ReplyView::Done)
            },
            RequestView::SetGroup { path, group } => if self.group_locked.contains(path) {
                (self, ReplyView::Failed(denied_text()))
            } else {
                (World { groups: self.groups.insert(path, group), ..self }, ReplyView::Done)
            },
            RequestView::Remove { path } => (
                World {
                    files: self.files.remove(path),
                    sidecars: self.sidecars.remove(path),
                    ..self
                },
                ReplyView::Done,
            ),
            _ => (self, ReplyView::Failed(Seq::empty())),
        }
    }
}

/// The result of an adding that is run against the world for at most `fuel`
/// requests, and the world that it leaves; no result where the requests do
/// not suffice.
pub open spec fn add_run(p: AddProgressView, w: World, fuel: nat) -> (
    Option<Result<AddedFileView, FileErrorView>>,
    World,
)
    decreases fuel,
{
    match p {
        AddProgressView::Done(r) => (Some(r), w),
        AddProgressView::Pending(m, request) => if fuel == 0 {
            (None, w)
        } else {
            let (w2, reply) = w.respond(request);
            add_run(add_next(m, reply), w2, (fuel - 1) as nat)
        },
    }
}

/// As `add_run`, of a getting.
pub open spec fn get_run(p: GetProgressView, w: World, fuel: nat) -> (
    Option<Result<RetrievedFileView, FileErrorView>>,
    World,
)
    decreases fuel,
{
    match p {
        GetProgressView::Done(r) => (Some(r), w),
        GetProgressView::Pending(m, request) => if fuel == 0 {
            (None, w)
        } else {
            let (w2, reply) = w.respond(request);
            get_run(get_next(m, reply), w2, (fuel - 1) as nat)
        },
    }
}

/// As `add_run`, of an asking for the status.
pub open spec fn status_run(p: StatusProgressView, w: World, fuel: nat) -> (
    Option<Result<FileStatusView, FileErrorView>>,
    World,
)
    decreases fuel,
{
    match p {
        StatusProgressView::Done(r) => (Some(r), w),
        StatusProgressView::Pending(m, request) => if fuel == 0 {
            (None, w)
        } else {
            let (w2, reply) = w.respond(request);
            status_run(status_next(m, reply), w2, (fuel - 1) as nat)
        },
    }
}

/// More requests than any one file takes.
pub open spec fn enough() -> nat {
    16
}

/// An add of `input` in the world `w`: its result and the world after it.
pub open spec fn added(
    w: World,
    settings: SettingsView,
    message: Seq<char>,
    strict: bool,
    input: Seq<char>,
) -> (Option<Result<AddedFileView, FileErrorView>>, World) {
    add_run(add_start(settings, message, strict, input), w, enough())
}

/// A get of `input` in the world `w`: its result and the world after it.
pub open spec fn got(w: World, settings: SettingsView, input: Seq<char>) -> (
    Option<Result<RetrievedFileView, FileErrorView>>,
    World,
) {
    get_run(get_start(settings, input), w, enough())
}

/// A status of `input` in the world `w`: its result and the world after it.
pub open spec fn asked(w: World, git_dir: Seq<char>, input: Seq<char>) -> (
    Option<Result<FileStatusView, FileErrorView>>,
    World,
) {
    status_run(status_start(git_dir, input), w, enough())
}

} // verus!
