//! The two error taxonomies: errors of one file, reported in that file's slot
//! of a batch result, and errors that end a whole batch (or an init).

use vstd::prelude::*;
use crate::text::opt_text;

verus! {

/// What went wrong with one file.
#[derive(Clone, Copy, PartialEq, Eq, Debug, Structural)]
pub enum FileErrorType {
    RelativePathNotFound,
    FileNotInGitRepo,
    AbsolutePathNotFound,
    PathIsDirectory,
    HashNotFound,
    SizeNotFound,
    OwnerNotFound,
    GroupNotSet,
    PermissionsNotSet,
    MetadataNotSaved,
    MetadataNotLoaded,
    /// The ignore file beside a tracked file could not be seen to.
    GitIgnoreNotAdded,
    /// The ignore file at the root of the repository could not be seen to.
    ProjectGitIgnoreNotAdded,
    FileNotCopied,
    MetadataNotFound,
    FileNotAdded,
}

/// An error of one file: its kind, the detail where there is any, and what
/// is known of where the file lies.
#[derive(Debug, PartialEq, Eq)]
pub struct FileError {
    pub relative_path: Option<String>,
    pub absolute_path: Option<String>,
    pub error: FileErrorType,
    pub error_message: Option<String>,
    pub input: String,
}

/// What a [`FileError`] holds, with every text as its characters.
pub struct FileErrorView {
    pub relative_path: Option<Seq<char>>,
    pub absolute_path: Option<Seq<char>>,
    pub error: FileErrorType,
    pub error_message: Option<Seq<char>>,
    pub input: Seq<char>,
}

impl View for FileError {
    type V = FileErrorView;

    open spec fn view(&self) -> FileErrorView {
        FileErrorView {
            relative_path: opt_text(self.relative_path),
            absolute_path: opt_text(self.absolute_path),
            error: self.error,
            error_message: opt_text(self.error_message),
            input: self.input@,
        }
    }
}

impl Clone for FileError {
    fn clone(&self) -> (r: Self)
        ensures
            r == *self,
    {
        FileError {
            relative_path: self.relative_path.clone(),
            absolute_path: self.absolute_path.clone(),
            error: self.error,
            error_message: self.error_message.clone(),
            input: self.input.clone(),
        }
    }
}

impl FileErrorView {
    /// The detail of the error, or `NA` where it has none.
    pub open spec fn message_text(self) -> Seq<char> {
        match self.error_message {
            Some(m) => m,
            None => "NA"@,
        }
    }
}

impl FileError {
    /// The detail of the error, or `NA` where it has none.
    pub fn message(&self) -> (s: String)
        ensures
            s@ == self@.message_text(),
    {
        match &self.error_message {
            Some(m) => m.clone(),
            None => String::from_str("NA"),
        }
    }
}

impl FileErrorType {
    /// The display text of each kind.
    pub open spec fn text(self) -> Seq<char> {
        match self {
            FileErrorType::RelativePathNotFound => "relative path not found"@,
            FileErrorType::FileNotInGitRepo => "file not in git repository"@,
            FileErrorType::AbsolutePathNotFound => "absolute path not found"@,
            FileErrorType::PathIsDirectory => "path is a directory"@,
            FileErrorType::HashNotFound => "file hash not found"@,
            FileErrorType::SizeNotFound => "file size not found"@,
            FileErrorType::OwnerNotFound => "file owner not found"@,
            FileErrorType::GroupNotSet => "linux primary group not set"@,
            FileErrorType::PermissionsNotSet => "linux file permissions not set"@,
            FileErrorType::MetadataNotSaved => "metadata file not saved"@,
            FileErrorType::MetadataNotLoaded => "metadata file not loaded"@,
            FileErrorType::GitIgnoreNotAdded => "gitignore entry not saved"@,
            FileErrorType::ProjectGitIgnoreNotAdded => "project gitignore entry not saved"@,
            FileErrorType::FileNotCopied => "file not copied"@,
            FileErrorType::MetadataNotFound => "metadata file not found"@,
            FileErrorType::FileNotAdded => "file not added"@,
        }
    }

    /// The display text of the kind.
    pub fn file_error_to_string(&self) -> (s: String)
        ensures
            s@ == self.text(),
    {
        match self {
            FileErrorType::RelativePathNotFound => String::from_str("relative path not found"),
            FileErrorType::FileNotInGitRepo => String::from_str("file not in git repository"),
            FileErrorType::AbsolutePathNotFound => String::from_str("absolute path not found"),
            FileErrorType::PathIsDirectory => String::from_str("path is a directory"),
            FileErrorType::HashNotFound => String::from_str("file hash not found"),
            FileErrorType::SizeNotFound => String::from_str("file size not found"),
            FileErrorType::OwnerNotFound => String::from_str("file owner not found"),
            FileErrorType::GroupNotSet => String::from_str("linux primary group not set"),
            FileErrorType::PermissionsNotSet => String::from_str("linux file permissions not set"),
            FileErrorType::MetadataNotSaved => String::from_str("metadata file not saved"),
            FileErrorType::MetadataNotLoaded => String::from_str("metadata file not loaded"),
            FileErrorType::GitIgnoreNotAdded => String::from_str("gitignore entry not saved"),
            FileErrorType::ProjectGitIgnoreNotAdded => String::from_str(
                "project gitignore entry not saved",
            ),
            FileErrorType::FileNotCopied => String::from_str("file not copied"),
            FileErrorType::MetadataNotFound => String::from_str("metadata file not found"),
            FileErrorType::FileNotAdded => String::from_str("file not added"),
        }
    }
}

/// What ended a whole batch before any file was worked on.
#[derive(Clone, Copy, PartialEq, Eq, Debug, Structural)]
pub enum BatchErrorType {
    AnyFilesDNE,
    GitRepoNotFound,
    ConfigNotFound,
    GroupNotFound,
    StorageDirNotFound,
    PermissionsInvalid,
    AnyMetaFilesDNE,
}

/// An error that ends a whole batch.
#[derive(Debug, PartialEq, Eq)]
pub struct BatchError {
    pub error: BatchErrorType,
    pub error_message: String,
}

/// What a [`BatchError`] holds, with every text as its characters.
pub struct BatchErrorView {
    pub error: BatchErrorType,
    pub error_message: Seq<char>,
}

impl View for BatchError {
    type V = BatchErrorView;

    open spec fn view(&self) -> BatchErrorView {
        BatchErrorView { error: self.error, error_message: self.error_message@ }
    }
}

impl Clone for BatchError {
    fn clone(&self) -> (r: Self)
        ensures
            r == *self,
    {
        BatchError { error: self.error, error_message: self.error_message.clone() }
    }
}

impl BatchError {
    /// The detail of the error.
    pub fn message(&self) -> (s: String)
        ensures
            s@ == self@.error_message,
    {
        self.error_message.clone()
    }
}

impl BatchErrorType {
    /// The display text of each kind.
    pub open spec fn text(self) -> Seq<char> {
        match self {
            BatchErrorType::AnyFilesDNE => "at least one inputted file not found"@,
            BatchErrorType::GitRepoNotFound => "git repository not found"@,
            BatchErrorType::ConfigNotFound => "configuration file not found (dvs.yaml)"@,
            BatchErrorType::GroupNotFound => "linux primary group not found"@,
            BatchErrorType::StorageDirNotFound => "storage directory not found"@,
            BatchErrorType::PermissionsInvalid => "linux file permissions invalid"@,
            BatchErrorType::AnyMetaFilesDNE => "metadata file not found for at least one file"@,
        }
    }

    /// The display text of the kind.
    pub fn batch_error_to_string(&self) -> (s: String)
        ensures
            s@ == self.text(),
    {
        match self {
            BatchErrorType::AnyFilesDNE => String::from_str("at least one inputted file not found"),
            BatchErrorType::GitRepoNotFound => String::from_str("git repository not found"),
            BatchErrorType::ConfigNotFound => String::from_str(
                "configuration file not found (dvs.yaml)",
            ),
            BatchErrorType::GroupNotFound => String::from_str("linux primary group not found"),
            BatchErrorType::StorageDirNotFound => String::from_str("storage directory not found"),
            BatchErrorType::PermissionsInvalid => String::from_str("linux file permissions invalid"),
            BatchErrorType::AnyMetaFilesDNE => String::from_str(
                "metadata file not found for at least one file",
            ),
        }
    }
}

/// What kept a project from being initialised.
#[derive(Clone, Copy, PartialEq, Eq, Debug, Structural)]
pub enum InitErrorType {
    ProjAlreadyInited,
    StorageDirNotCreated,
    StorageDirPermsNotSet,
    StorageDirNotADir,
    StorageDirAbsPathNotFound,
    GitRepoNotFound,
    ConfigNotCreated,
    GroupNotFound,
    PermissionsInvalid,
    DirEmptyNotChecked,
}

/// An error of an init.
#[derive(Debug, PartialEq, Eq)]
pub struct InitError {
    pub error: InitErrorType,
    pub error_message: String,
}

/// What a [`InitError`] holds, with every text as its characters.
pub struct InitErrorView {
    pub error: InitErrorType,
    pub error_message: Seq<char>,
}

impl View for InitError {
    type V = InitErrorView;

    open spec fn view(&self) -> InitErrorView {
        InitErrorView { error: self.error, error_message: self.error_message@ }
    }
}

impl InitErrorView {
    /// The kind's text, a colon and a space, then the detail.
    pub open spec fn message_text(self) -> Seq<char> {
        self.error.text() + ": "@ + self.error_message
    }
}

impl InitError {
    /// The kind's text, a colon and a space, then the detail.
    pub fn message(&self) -> (s: String)
        ensures
            s@ == self@.message_text(),
    {
        let mut s = self.error.init_error_to_string();
        s.append(": ");
        s.append(self.error_message.as_str());
        s
    }
}

impl InitErrorType {
    /// The display text of each kind.
    pub open spec fn text(self) -> Seq<char> {
        match self {
            InitErrorType::ProjAlreadyInited => "project already initialized"@,
            InitErrorType::GitRepoNotFound => "git repository not found"@,
            InitErrorType::StorageDirNotADir => "storage directory input is not a directory"@,
            InitErrorType::StorageDirAbsPathNotFound => "storage directory absolute path not found"@,
            InitErrorType::ConfigNotCreated => "configuration file not created (dvs.yaml)"@,
            InitErrorType::GroupNotFound => "linux primary group not found"@,
            InitErrorType::StorageDirNotCreated => "storage directory not created"@,
            InitErrorType::PermissionsInvalid => "linux file permissions invalid"@,
            InitErrorType::DirEmptyNotChecked => "could not check if storage directory is empty"@,
            InitErrorType::StorageDirPermsNotSet => "storage directory permissions not set"@,
        }
    }

    /// The display text of the kind.
    pub fn init_error_to_string(&self) -> (s: String)
        ensures
            s@ == self.text(),
    {
        match self {
            InitErrorType::ProjAlreadyInited => String::from_str("project already initialized"),
            InitErrorType::GitRepoNotFound => String::from_str("git repository not found"),
            InitErrorType::StorageDirNotADir => String::from_str(
                "storage directory input is not a directory",
            ),
            InitErrorType::StorageDirAbsPathNotFound => String::from_str(
                "storage directory absolute path not found",
            ),
            InitErrorType::ConfigNotCreated => String::from_str(
                "configuration file not created (dvs.yaml)",
            ),
            InitErrorType::GroupNotFound => String::from_str("linux primary group not found"),
            InitErrorType::StorageDirNotCreated => String::from_str("storage directory not created"),
            InitErrorType::PermissionsInvalid => String::from_str("linux file permissions invalid"),
            InitErrorType::DirEmptyNotChecked => String::from_str(
                "could not check if storage directory is empty",
            ),
            InitErrorType::StorageDirPermsNotSet => String::from_str(
                "storage directory permissions not set",
            ),
        }
    }
}

/// The view of a result whose error is a file error.
pub open spec fn file_result<T>(r: Result<T, FileError>) -> Result<T, FileErrorView> {
    match r {
        Ok(v) => Ok(v),
        Err(e) => Err(e@),
    }
}

/// The view of a result that holds a text or a file error.
pub open spec fn file_text_result(r: Result<String, FileError>) -> Result<Seq<char>, FileErrorView> {
    match r {
        Ok(s) => Ok(s@),
        Err(e) => Err(e@),
    }
}

} // verus!
