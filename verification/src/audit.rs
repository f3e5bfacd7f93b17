//! The records of the audit log that is kept in the store.

use vstd::prelude::*;
use crate::text::{decimal, decimal_string, texts};

verus! {

/// What was done.
#[derive(Clone, Copy, PartialEq, Eq, Debug, Structural)]
pub enum Action {
    Init,
    Add,
    Remove,
}

/// The kind of a digest.
#[derive(Clone, Copy, PartialEq, Eq, Debug, Structural)]
pub enum HashType {
    Blake3,
    NA,
}

impl Action {
    /// The name under which the action is logged.
    pub open spec fn text(self) -> Seq<char> {
        match self {
            Action::Init => "Init"@,
            Action::Add => "Add"@,
            Action::Remove => "Remove"@,
        }
    }

    /// The name under which it is logged.
    pub fn name(&self) -> (s: String)
        ensures
            s@ == self.text(),
    {
        match self {
            Action::Init => String::from_str("Init"),
            Action::Add => String::from_str("Add"),
            Action::Remove => String::from_str("Remove"),
        }
    }
}

impl HashType {
    /// The name under which the kind is logged.
    pub open spec fn text(self) -> Seq<char> {
        match self {
            HashType::Blake3 => "Blake3"@,
            HashType::NA => "NA"@,
        }
    }

    /// The name under which it is logged.
    pub fn name(&self) -> (s: String)
        ensures
            s@ == self.text(),
    {
        match self {
            HashType::Blake3 => String::from_str("Blake3"),
            HashType::NA => String::from_str("NA"),
        }
    }
}

/// One entry of the audit log.
#[derive(Debug, PartialEq, Eq)]
pub struct LogEntry {
    pub timestamp: String,
    pub action: Action,
    pub path: String,
    pub hash: String,
    pub hash_type: HashType,
    pub uid: u32,
    pub username: String,
}

/// What a [`LogEntry`] holds, with every text as its characters.
pub struct LogEntryView {
    pub timestamp: Seq<char>,
    pub action: Action,
    pub path: Seq<char>,
    pub hash: Seq<char>,
    pub hash_type: HashType,
    pub uid: u32,
    pub username: Seq<char>,
}

impl View for LogEntry {
    type V = LogEntryView;

    open spec fn view(&self) -> LogEntryView {
        LogEntryView {
            timestamp: self.timestamp@,
            action: self.action,
            path: self.path@,
            hash: self.hash@,
            hash_type: self.hash_type,
            uid: self.uid,
            username: self.username@,
        }
    }
}

/// The names of the columns of the log, in order.
pub open spec fn header_fields() -> Seq<Seq<char>> {
    seq!["timestamp"@, "action"@, "path"@, "hash"@, "hash_type"@, "uid"@, "username"@]
}

impl LogEntryView {
    /// The fields of the entry as texts, in the order of the columns.
    pub open spec fn fields(self) -> Seq<Seq<char>> {
        seq![
            self.timestamp,
            self.action.text(),
            self.path,
            self.hash,
            self.hash_type.text(),
            decimal(self.uid as nat),
            self.username,
        ]
    }
}

/// The record that heads a new audit log: the names of the columns.
pub fn create_audit_log() -> (r: Vec<String>)
    ensures
        texts(r@) == header_fields(),
{
    let mut r: Vec<String> = Vec::new();
    r.push(String::from_str("timestamp"));
    r.push(String::from_str("action"));
    r.push(String::from_str("path"));
    r.push(String::from_str("hash"));
    r.push(String::from_str("hash_type"));
    r.push(String::from_str("uid"));
    r.push(String::from_str("username"));
    assert(texts(r@) =~= header_fields());
    r
}

impl LogEntry {
    /// The record of the entry: its fields as texts, in the order of the
    /// columns.
    pub fn record(&self) -> (r: Vec<String>)
        ensures
            texts(r@) == self@.fields(),
    {
        let mut r: Vec<String> = Vec::new();
        r.push(self.timestamp.clone());
        r.push(self.action.name());
        r.push(self.path.clone());
        r.push(self.hash.clone());
        r.push(self.hash_type.name());
        r.push(decimal_string(self.uid as u64));
        r.push(self.username.clone());
        assert(texts(r@) =~= self@.fields());
        r
    }
}

/// The view of an entry or of the reason why there is none.
pub open spec fn entry_result(r: Result<LogEntry, String>) -> Result<LogEntryView, Seq<char>> {
    match r {
        Ok(e) => Ok(e@),
        Err(e) => Err(e@),
    }
}

/// Makes the entry for an action on `file_path` by the user `user`, at the
/// time `timestamp`. Without a user there is no entry.
pub fn write_entry(
    file_path: &str,
    hash: &str,
    hash_type: HashType,
    action: Action,
    user: Option<(u32, String)>,
    timestamp: String,
) -> (r: Result<LogEntry, String>)
    ensures
        entry_result(r) == (match user {
            None => Err("Could not get user info"@),
            Some((uid, username)) => Ok(
                LogEntryView {
                    timestamp: timestamp@,
                    action,
                    path: file_path@,
                    hash: hash@,
                    hash_type,
                    uid,
                    username: username@,
                },
            ),
        }),
{
    match user {
        None => Err(String::from_str("Could not get user info")),
        Some((uid, username)) => Ok(
            LogEntry {
                timestamp,
                action,
                path: String::from_str(file_path),
                hash: String::from_str(hash),
                hash_type,
                uid,
                username,
            },
        ),
    }
}

} // verus!
