//! The exchange between the engine and whoever runs it: the engine asks for
//! one piece of outside work at a time and is resumed with the answer.

use vstd::prelude::*;
use crate::file::{Metadata, MetadataView, PathProbe, PathProbeView};
use crate::cache::{CacheData, CacheDataView, ModTime};
use crate::config::{Config, ConfigView};

verus! {

/// One piece of outside work.
#[derive(Debug, PartialEq, Eq)]
pub enum Request {
    /// Find out where `path` and its sidecar `sidecar` lie.
    /// Answer: `Located`.
    Locate { path: String, sidecar: String },
    /// The digest of the file at `path`, from the cache where it is valid.
    /// Answer: `Text`, or `Failed`.
    Hash { path: String },
    /// The cache entry of `path` and the file's modification time now.
    /// Answer: `Cache`; anything else is a miss.
    ReadCache { path: String },
    /// Delete the cache entry of `path`. The answer is not looked at.
    DropCache { path: String },
    /// Compute the digest of the file at `path` from its bytes.
    /// Answer: `Text`, or `Failed`.
    Digest { path: String },
    /// Record `hash` in the cache as the digest of `path`, with the file's
    /// modification time now. The answer is not looked at.
    WriteCache { path: String, hash: String },
    /// Read the sidecar at `path`. Answer: `Sidecar`, or `Failed`.
    LoadMetadata { path: String },
    /// Write `metadata` to the sidecar at `path`. Answer: `Done`, or `Failed`.
    SaveMetadata { path: String, metadata: Metadata },
    /// The size in bytes of the file at `path`. Answer: `Size`, or `Failed`.
    Size { path: String },
    /// The name of the user who owns `path`. Answer: `Text`, or `Failed`.
    Owner { path: String },
    /// The time now, as the text to put in a sidecar. Answer: `Text`.
    Clock,
    /// Whether anything exists at `path`. Answer: `Flag`; anything else
    /// counts as no.
    Exists { path: String },
    /// See to it that the ignore file at `path` holds the rules for the file
    /// that lies under `entry` beside it. Answer: `Done`, or `Failed`.
    Ignore { path: String, entry: String },
    /// The text of the ignore file at `path`, which is created empty where
    /// there is none. Answer: `Text`, or `Failed`.
    ReadIgnore { path: String },
    /// The text of the ignore file at `path`, which is not created where
    /// there is none. Answer: `Text`, or `Failed`.
    ReadProjectIgnore { path: String },
    /// Append `text` to the ignore file at `path`. Answer: `Done`, or `Failed`.
    AppendIgnore { path: String, text: String },
    /// Copy the bytes of `from` to `to`, creating the directory of `to`.
    /// Answer: `Done`, or `Failed`.
    Copy { from: String, to: String },
    /// Set the permission bits of `path`. Answer: `Done`, or `Failed`.
    SetPermissions { path: String, mode: u32 },
    /// Hand `path` to the group. Answer: `Done`, or `Failed`.
    SetGroup { path: String, group: String },
    /// Delete the file at `path`. The answer is not looked at.
    Remove { path: String },
    /// The root of the repository that the directory `dir` lies in.
    /// Answer: `Text`, or `Failed`.
    FindRepo { dir: String },
    /// Whether the system knows the group `name`. Answer: `Done`, or `Failed`.
    LookupGroup { name: String },
    /// The path made absolute, whether or not it exists.
    /// Answer: `Text`, or `Failed`.
    Absolutize { path: String },
    /// The path of what exists at `path`, with every link resolved.
    /// Answer: `Text`, or `Failed`.
    Resolve { path: String },
    /// The configuration in the file at `path`. Answer: `Settings`; anything
    /// else means that there is none that can be read.
    ReadConfig { path: String },
    /// Write `config` to the file at `path`. Answer: `Done`, or `Failed`.
    WriteConfig { path: String, config: Config },
    /// Create the directory at `path`. Answer: `Done`, or `Failed`.
    MakeDirectory { path: String },
    /// Whether `path` is a directory. Answer: `Flag`; anything else counts
    /// as no.
    IsDirectory { path: String },
    /// Whether the directory at `path` is empty. Answer: `Flag`, or `Failed`.
    IsEmpty { path: String },
    /// Begin the audit log at `path`, for the group `log_group` where one is
    /// given, with the permission bits `mode`. The answer is not looked at.
    StartLog { path: String, mode: u32, log_group: Option<String> },
}

/// What a [`Request`] holds, with every text as its characters.
pub enum RequestView {
    Locate { path: Seq<char>, sidecar: Seq<char> },
    Hash { path: Seq<char> },
    ReadCache { path: Seq<char> },
    DropCache { path: Seq<char> },
    Digest { path: Seq<char> },
    WriteCache { path: Seq<char>, hash: Seq<char> },
    LoadMetadata { path: Seq<char> },
    SaveMetadata { path: Seq<char>, metadata: MetadataView },
    Size { path: Seq<char> },
    Owner { path: Seq<char> },
    Clock,
    Exists { path: Seq<char> },
    Ignore { path: Seq<char>, entry: Seq<char> },
    ReadIgnore { path: Seq<char> },
    ReadProjectIgnore { path: Seq<char> },
    AppendIgnore { path: Seq<char>, text: Seq<char> },
    Copy { from: Seq<char>, to: Seq<char> },
    SetPermissions { path: Seq<char>, mode: u32 },
    SetGroup { path: Seq<char>, group: Seq<char> },
    Remove { path: Seq<char> },
    FindRepo { dir: Seq<char> },
    LookupGroup { name: Seq<char> },
    Absolutize { path: Seq<char> },
    Resolve { path: Seq<char> },
    ReadConfig { path: Seq<char> },
    WriteConfig { path: Seq<char>, config: ConfigView },
    MakeDirectory { path: Seq<char> },
    IsDirectory { path: Seq<char> },
    IsEmpty { path: Seq<char> },
    StartLog { path: Seq<char>, mode: u32, log_group: Option<Seq<char>> },
}

impl View for Request {
    type V = RequestView;

    open spec fn view(&self) -> RequestView {
        match *self {
            Request::Locate { path, sidecar } => RequestView::Locate {
                path: path@,
                sidecar: sidecar@,
            },
            Request::Hash { path } => RequestView::Hash { path: path@ },
            Request::ReadCache { path } => RequestView::ReadCache { path: path@ },
            Request::DropCache { path } => RequestView::DropCache { path: path@ },
            Request::Digest { path } => RequestView::Digest { path: path@ },
            Request::WriteCache { path, hash } => RequestView::WriteCache {
                path: path@,
                hash: hash@,
            },
            Request::LoadMetadata { path } => RequestView::LoadMetadata { path: path@ },
            Request::SaveMetadata { path, metadata } => RequestView::SaveMetadata {
                path: path@,
                metadata: metadata@,
            },
            Request::Size { path } => RequestView::Size { path: path@ },
            Request::Owner { path } => RequestView::Owner { path: path@ },
            Request::Clock => RequestView::Clock,
            Request::Exists { path } => RequestView::Exists { path: path@ },
            Request::Ignore { path, entry } => RequestView::Ignore { path: path@, entry: entry@ },
            Request::ReadIgnore { path } => RequestView::ReadIgnore { path: path@ },
            Request::ReadProjectIgnore { path } => RequestView::ReadProjectIgnore { path: path@ },
            Request::AppendIgnore { path, text } => RequestView::AppendIgnore {
                path: path@,
                text: text@,
            },
            Request::Copy { from, to } => RequestView::Copy { from: from@, to: to@ },
            Request::SetPermissions { path, mode } => RequestView::SetPermissions {
                path: path@,
                mode,
            },
            Request::SetGroup { path, group } => RequestView::SetGroup {
                path: path@,
                group: group@,
            },
            Request::Remove { path } => RequestView::Remove { path: path@ },
            Request::FindRepo { dir } => RequestView::FindRepo { dir: dir@ },
            Request::LookupGroup { name } => RequestView::LookupGroup { name: name@ },
            Request::Absolutize { path } => RequestView::Absolutize { path: path@ },
            Request::Resolve { path } => RequestView::Resolve { path: path@ },
            Request::ReadConfig { path } => RequestView::ReadConfig { path: path@ },
            Request::WriteConfig { path, config } => RequestView::WriteConfig {
                path: path@,
                config: config@,
            },
            Request::MakeDirectory { path } => RequestView::MakeDirectory { path: path@ },
            Request::IsDirectory { path } => RequestView::IsDirectory { path: path@ },
            Request::IsEmpty { path } => RequestView::IsEmpty { path: path@ },
            Request::StartLog { path, mode, log_group } => RequestView::StartLog {
                path: path@,
                mode,
                log_group: crate::text::opt_text(log_group),
            },
        }
    }
}

impl RequestView {
    /// Whether the request changes the tracked tree or the store: anything
    /// but a question and the upkeep of the hash cache.
    pub open spec fn is_write(self) -> bool {
        match self {
            RequestView::SaveMetadata { .. } => true,
            RequestView::Ignore { .. } => true,
            RequestView::AppendIgnore { .. } => true,
            RequestView::Copy { .. } => true,
            RequestView::SetPermissions { .. } => true,
            RequestView::SetGroup { .. } => true,
            RequestView::Remove { .. } => true,
            RequestView::WriteConfig { .. } => true,
            RequestView::MakeDirectory { .. } => true,
            RequestView::StartLog { .. } => true,
            _ => false,
        }
    }
}

/// The answer to a request.
#[derive(Debug, PartialEq, Eq)]
pub enum Reply {
    Located(PathProbe),
    Text(String),
    Size(u64),
    Flag(bool),
    Sidecar(Metadata),
    Cache(CacheData, ModTime),
    Settings(Config),
    Done,
    /// The work could not be done; the text says why.
    Failed(String),
}

/// What a [`Reply`] holds, with every text as its characters.
pub enum ReplyView {
    Located(PathProbeView),
    Text(Seq<char>),
    Size(u64),
    Flag(bool),
    Sidecar(MetadataView),
    Cache(CacheDataView, ModTime),
    Settings(ConfigView),
    Done,
    Failed(Seq<char>),
}

impl View for Reply {
    type V = ReplyView;

    open spec fn view(&self) -> ReplyView {
        match *self {
            Reply::Located(p) => ReplyView::Located(p@),
            Reply::Text(s) => ReplyView::Text(s@),
            Reply::Size(n) => ReplyView::Size(n),
            Reply::Flag(b) => ReplyView::Flag(b),
            Reply::Sidecar(m) => ReplyView::Sidecar(m@),
            Reply::Cache(c, t) => ReplyView::Cache(c@, t),
            Reply::Settings(c) => ReplyView::Settings(c@),
            Reply::Done => ReplyView::Done,
            Reply::Failed(e) => ReplyView::Failed(e@),
        }
    }
}

impl ReplyView {
    /// The reason given with a failure; none with any other answer.
    pub open spec fn reason(self) -> Option<Seq<char>> {
        match self {
            ReplyView::Failed(e) => Some(e),
            _ => None,
        }
    }

    /// The reason given with a failure; the empty text with any other answer.
    pub open spec fn reason_text(self) -> Seq<char> {
        match self {
            ReplyView::Failed(e) => e,
            _ => Seq::empty(),
        }
    }
}

impl Reply {
    /// The reason given with a failure; none with any other answer.
    pub fn reason(&self) -> (r: Option<String>)
        ensures
            crate::text::opt_text(r) == self@.reason(),
    {
        match self {
            Reply::Failed(e) => Some(e.clone()),
            _ => None,
        }
    }

    /// The reason given with a failure; the empty text with any other answer.
    pub fn reason_text(&self) -> (r: String)
        ensures
            r@ == self@.reason_text(),
    {
        match self {
            Reply::Failed(e) => e.clone(),
            _ => String::new(),
        }
    }

    /// The size that the answer carries, or the reason why it carries none.
    pub fn as_size(&self) -> (r: Result<u64, String>)
        ensures
            match self@ {
                ReplyView::Size(n) => r == Ok::<u64, String>(n),
                _ => r is Err && r->Err_0@ == self@.reason_text(),
            },
    {
        match self {
            Reply::Size(n) => Ok(*n),
            _ => Err(self.reason_text()),
        }
    }

    /// Whether the answer says that the work is done, or the reason why it
    /// is not.
    pub fn as_done(&self) -> (r: Result<(), String>)
        ensures
            match self@ {
                ReplyView::Done => r is Ok,
                _ => r is Err && r->Err_0@ == self@.reason_text(),
            },
    {
        match self {
            Reply::Done => Ok(()),
            _ => Err(self.reason_text()),
        }
    }

    /// The text that the answer carries, or the reason why it carries none.
    pub fn into_text(self) -> (r: Result<String, String>)
        ensures
            match self@ {
                ReplyView::Text(t) => r is Ok && r->Ok_0@ == t,
                _ => r is Err && r->Err_0@ == self@.reason_text(),
            },
    {
        match self {
            Reply::Text(t) => Ok(t),
            other => Err(other.reason_text()),
        }
    }

    /// The sidecar record that the answer carries, or the reason why it
    /// carries none.
    pub fn into_sidecar(self) -> (r: Result<Metadata, String>)
        ensures
            match self@ {
                ReplyView::Sidecar(m) => r is Ok && r->Ok_0@ == m,
                _ => r is Err && r->Err_0@ == self@.reason_text(),
            },
    {
        match self {
            Reply::Sidecar(m) => Ok(m),
            other => Err(other.reason_text()),
        }
    }

    /// The answer that carries a text where there is one, and the failure
    /// with its reason where there is none.
    pub fn from_text(r: Result<String, String>) -> (reply: Reply)
        ensures
            reply@ == (match r {
                Ok(s) => ReplyView::Text(s@),
                Err(e) => ReplyView::Failed(e@),
            }),
    {
        match r {
            Ok(s) => Reply::Text(s),
            Err(e) => Reply::Failed(e),
        }
    }
}

} // verus!
