//! Initialising a project: settling where the store lies and what its
//! copies get, creating the store where there is none, and writing the
//! configuration. What the user should be told comes back as events.

use vstd::prelude::*;
use crate::text::{to_chars, opt_text, signed_decimal, signed_decimal_string};
use crate::path::{file_name, file_name_of, join, joined, lies_inside};
use crate::error::{InitError, InitErrorType, InitErrorView};
use crate::config::{Config, ConfigView, config_file_name, config_path, octal_reading, get_mode_u32,
    mode_of};
use crate::repo::dir_in_git_repo;
use crate::exchange::{Request, RequestView, Reply, ReplyView};

verus! {

/// The permission bits of copies where none are configured.
pub const DEFAULT_FILE_PERMISSIONS: u32 = 0o664;

/// The number that is written to the configuration where none is given.
pub const DEFAULT_PERMISSIONS_NUMBER: i32 = 664;

/// The permission bits of a store that is created.
pub const STORAGE_DIR_PERMISSIONS: u32 = 0o770;

/// What an init settled.
#[derive(Debug, PartialEq, Eq)]
pub struct Init {
    pub storage_directory: String,
    pub group: String,
    pub permissions: u32,
}

/// What a [`Init`] holds, with every text as its characters.
pub struct InitView {
    pub storage_directory: Seq<char>,
    pub group: Seq<char>,
    pub permissions: u32,
}

impl View for Init {
    type V = InitView;

    open spec fn view(&self) -> InitView {
        InitView {
            storage_directory: self.storage_directory@,
            group: self.group@,
            permissions: self.permissions,
        }
    }
}

/// Something that the user should be told of an init.
#[derive(Clone, Copy, PartialEq, Eq, Debug, Structural)]
pub enum InitEvent {
    /// The storage directory has the name of a file.
    LooksLikeFile,
    /// The storage directory does not exist and is created.
    Creating,
    /// The storage directory exists already.
    AlreadyExists,
    /// The storage directory holds something already.
    NotEmpty,
    /// The storage directory lies in the repository: what is stored would
    /// go into version control.
    InsideRepository,
    /// The project is initialised.
    Initialized,
}

/// Where an init stands: which answer is awaited.
#[derive(Clone, Copy, PartialEq, Eq, Debug, Structural)]
pub enum InitStage {
    FindingRepo,
    CheckingGroup,
    MakingAbsolute,
    ReadingConfig,
    Probing,
    Creating,
    Permitting,
    Logging,
    CheckingDirectory,
    CheckingEmpty,
    Resolving,
    Writing,
}

/// An init.
#[derive(Debug, PartialEq, Eq)]
pub struct InitRun {
    pub stage: InitStage,
    /// The storage directory as it was given.
    pub storage_dir: String,
    pub octal_permissions: Option<i32>,
    pub group_name: Option<String>,
    pub git_dir: String,
    /// The permission bits that were settled.
    pub mode: u32,
    /// The storage directory made absolute.
    pub absolute: String,
    pub events: Vec<InitEvent>,
}

/// What a [`InitRun`] holds, with every text as its characters.
pub struct InitRunView {
    pub stage: InitStage,
    pub storage_dir: Seq<char>,
    pub octal_permissions: Option<i32>,
    pub group_name: Option<Seq<char>>,
    pub git_dir: Seq<char>,
    pub mode: u32,
    pub absolute: Seq<char>,
    pub events: Seq<InitEvent>,
}

impl View for InitRun {
    type V = InitRunView;

    open spec fn view(&self) -> InitRunView {
        InitRunView {
            stage: self.stage,
            storage_dir: self.storage_dir@,
            octal_permissions: self.octal_permissions,
            group_name: opt_text(self.group_name),
            git_dir: self.git_dir@,
            mode: self.mode,
            absolute: self.absolute@,
            events: self.events@,
        }
    }
}

/// The init goes on with a request, or it is done with its result and with
/// what the user should be told.
#[derive(Debug, PartialEq, Eq)]
pub enum InitProgress {
    Pending(InitRun, Request),
    Done(Result<Init, InitError>, Vec<InitEvent>),
}

/// What a [`InitProgress`] holds, with every text as its characters.
pub enum InitProgressView {
    Pending(InitRunView, RequestView),
    Done(Result<InitView, InitErrorView>, Seq<InitEvent>),
}

impl View for InitProgress {
    type V = InitProgressView;

    open spec fn view(&self) -> InitProgressView {
        match *self {
            InitProgress::Pending(m, r) => InitProgressView::Pending(m@, r@),
            InitProgress::Done(Ok(i), events) => InitProgressView::Done(Ok(i@), events@),
            InitProgress::Done(Err(e), events) => InitProgressView::Done(Err(e@), events@),
        }
    }
}

/// Whether the last segment of a path has an extension: a dot after its
/// first character. The segment `..` has none.
pub open spec fn has_extension(path: Seq<char>) -> bool {
    let name = file_name_of(path);
    name != ".."@ && exists|i: int| 0 < i < name.len() && #[trigger] name[i] == '.'
}

/// The permission bits that an init settles: the default where no number is
/// given; else the number read as octal, unless it is negative or has a
/// digit above 7.
pub open spec fn init_mode(octal_permissions: Option<i32>) -> Option<u32> {
    match octal_permissions {
        None => Some(DEFAULT_FILE_PERMISSIONS),
        Some(p) => if p >= 0 && octal_reading(p as nat).is_some() {
            Some(octal_reading(p as nat).unwrap() as u32)
        } else {
            None
        },
    }
}

/// The text of an optional text; empty where there is none.
pub open spec fn text_or_empty(o: Option<Seq<char>>) -> Seq<char> {
    match o {
        Some(s) => s,
        None => Seq::empty(),
    }
}

impl InitRunView {
    /// The end with an error.
    pub open spec fn fail(self, error: InitErrorType, message: Seq<char>) -> InitProgressView {
        InitProgressView::Done(Err(InitErrorView { error, error_message: message }), self.events)
    }

    /// What was settled.
    pub open spec fn settled(self) -> InitView {
        InitView {
            storage_directory: self.absolute,
            group: text_or_empty(self.group_name),
            permissions: self.mode,
        }
    }

    /// The configuration that is written.
    pub open spec fn config(self) -> ConfigView {
        ConfigView {
            storage_dir: self.absolute,
            permissions: match self.octal_permissions {
                Some(p) => p,
                None => DEFAULT_PERMISSIONS_NUMBER,
            },
            group: text_or_empty(self.group_name),
        }
    }

    /// Whether a configuration that the project has already is the one that
    /// this init would write.
    pub open spec fn agrees_with(self, existing: ConfigView) -> bool {
        &&& existing.storage_dir == self.absolute
        &&& existing.group == text_or_empty(self.group_name)
        &&& mode_of(existing.permissions) == Ok::<u32, crate::error::BatchErrorView>(self.mode)
    }

    /// The move after the group: the permission bits are settled, and the
    /// storage directory is asked to be made absolute.
    pub open spec fn after_group(self) -> InitProgressView {
        match init_mode(self.octal_permissions) {
            None => self.fail(
                InitErrorType::PermissionsInvalid,
                "linux permissions: "@ + signed_decimal(self.octal_permissions.unwrap() as int)
                    + " not valid. invalid digit found in string"@,
            ),
            Some(mode) => InitProgressView::Pending(
                InitRunView { stage: InitStage::MakingAbsolute, mode, ..self },
                RequestView::Absolutize { path: self.storage_dir },
            ),
        }
    }

    /// The move to the last check: whether the store lies in the repository.
    pub open spec fn resolve(self) -> InitProgressView {
        InitProgressView::Pending(
            InitRunView { stage: InitStage::Resolving, ..self },
            RequestView::Resolve { path: self.absolute },
        )
    }

    /// The run with one more event.
    pub open spec fn tell(self, event: InitEvent) -> InitRunView {
        InitRunView { events: self.events.push(event), ..self }
    }
}

/// The first move: find the repository.
pub open spec fn init_start(
    storage_dir: Seq<char>,
    octal_permissions: Option<i32>,
    group_name: Option<Seq<char>>,
    working_dir: Seq<char>,
) -> InitProgressView {
    InitProgressView::Pending(
        InitRunView {
            stage: InitStage::FindingRepo,
            storage_dir,
            octal_permissions,
            group_name,
            git_dir: Seq::empty(),
            mode: DEFAULT_FILE_PERMISSIONS,
            absolute: Seq::empty(),
            events: Seq::empty(),
        },
        RequestView::FindRepo { dir: working_dir },
    )
}

/// The move after an answer.
///
/// The repository is found. The group, where one is named, must be known
/// to the system. The permission bits are settled. The storage directory is
/// made absolute. Where the project has a configuration already, the init
/// ends: with what it settled where the configuration says the same, with
/// an error where it says anything else. Else the storage directory is
/// created with its own permission bits where it does not exist, and the
/// audit log is begun in it; where it exists it must be a directory, and it
/// is looked at whether it is empty. Then the configuration is written.
pub open spec fn init_next(m: InitRunView, reply: ReplyView) -> InitProgressView {
    match m.stage {
        InitStage::FindingRepo => match reply {
            ReplyView::Text(git_dir) => {
                let found = InitRunView { git_dir, ..m };
                match m.group_name {
                    Some(name) => InitProgressView::Pending(
                        InitRunView { stage: InitStage::CheckingGroup, ..found },
                        RequestView::LookupGroup { name },
                    ),
                    None => found.after_group(),
                }
            },
            _ => m.fail(
                InitErrorType::GitRepoNotFound,
                "make sure you're in an active git repository. "@ + reply.reason_text(),
            ),
        },
        InitStage::CheckingGroup => match reply {
            ReplyView::Done => m.after_group(),
            _ => m.fail(
                InitErrorType::GroupNotFound,
                "could not find group "@ + text_or_empty(m.group_name) + ". "@
                    + reply.reason_text(),
            ),
        },
        InitStage::MakingAbsolute => match reply {
            ReplyView::Text(absolute) => InitProgressView::Pending(
                InitRunView { stage: InitStage::ReadingConfig, absolute, ..m },
                RequestView::ReadConfig { path: joined(m.git_dir, config_file_name()) },
            ),
            _ => m.fail(InitErrorType::StorageDirAbsPathNotFound, reply.reason_text()),
        },
        InitStage::ReadingConfig => match reply {
            ReplyView::Settings(existing) => if m.agrees_with(existing) {
                InitProgressView::Done(Ok(m.settled()), m.events)
            } else {
                m.fail(
                    InitErrorType::ProjAlreadyInited,
                    "dvs configuration settings already set in project; change manually by updating dvs.yaml in project root: "@
                        + joined(m.git_dir, config_file_name()),
                )
            },
            _ => {
                let told = if has_extension(m.absolute) {
                    m.tell(InitEvent::LooksLikeFile)
                } else {
                    m
                };
                InitProgressView::Pending(
                    InitRunView { stage: InitStage::Probing, ..told },
                    RequestView::Exists { path: m.absolute },
                )
            },
        },
        InitStage::Probing => match reply {
            ReplyView::Flag(true) => InitProgressView::Pending(
                InitRunView { stage: InitStage::CheckingDirectory, ..m },
                RequestView::IsDirectory { path: m.absolute },
            ),
            _ => InitProgressView::Pending(
                InitRunView { stage: InitStage::Creating, ..m.tell(InitEvent::Creating) },
                RequestView::MakeDirectory { path: m.absolute },
            ),
        },
        InitStage::Creating => match reply {
            ReplyView::Done => InitProgressView::Pending(
                InitRunView { stage: InitStage::Permitting, ..m },
                RequestView::SetPermissions { path: m.absolute, mode: STORAGE_DIR_PERMISSIONS },
            ),
            _ => m.fail(
                InitErrorType::StorageDirNotCreated,
                m.storage_dir + " not created. "@ + reply.reason_text(),
            ),
        },
        InitStage::Permitting => match reply {
            ReplyView::Done => InitProgressView::Pending(
                InitRunView { stage: InitStage::Logging, ..m },
                RequestView::StartLog {
                    path: joined(m.absolute, "audit.log"@),
                    mode: m.mode,
                    log_group: m.group_name,
                },
            ),
            _ => m.fail(InitErrorType::StorageDirPermsNotSet, reply.reason_text()),
        },
        InitStage::Logging => m.resolve(),
        InitStage::CheckingDirectory => match reply {
            ReplyView::Flag(true) => InitProgressView::Pending(
                InitRunView {
                    stage: InitStage::CheckingEmpty,
                    ..m.tell(InitEvent::AlreadyExists)
                },
                RequestView::IsEmpty { path: m.absolute },
            ),
            _ => m.fail(InitErrorType::StorageDirNotADir, "file path inputted"@),
        },
        InitStage::CheckingEmpty => match reply {
            ReplyView::Flag(true) => m.resolve(),
            ReplyView::Flag(false) => m.tell(InitEvent::NotEmpty).resolve(),
            _ => m.fail(InitErrorType::DirEmptyNotChecked, reply.reason_text()),
        },
        InitStage::Resolving => {
            let inside = reply matches ReplyView::Text(canonical) && lies_inside(
                canonical,
                m.git_dir,
            );
            let told = if inside {
                m.tell(InitEvent::InsideRepository)
            } else {
                m
            };
            InitProgressView::Pending(
                InitRunView { stage: InitStage::Writing, ..told },
                RequestView::WriteConfig {
                    path: joined(m.git_dir, config_file_name()),
                    config: m.config(),
                },
            )
        },
        InitStage::Writing => match reply {
            ReplyView::Done => InitProgressView::Done(
                Ok(m.settled()),
                m.events.push(InitEvent::Initialized),
            ),
            _ => m.fail(InitErrorType::ConfigNotCreated, reply.reason_text()),
        },
    }
}

fn name_has_extension(path: &String) -> (b: bool)
    ensures
        b == has_extension(path@),
{
    let name = file_name(path.as_str());
    let v = to_chars(name.as_str());
    proof {
        reveal_strlit("..");
    }
    if v.len() == 2 && v[0] == '.' && v[1] == '.' {
        assert(name@ =~= ".."@);
        return false;
    }
    let mut i: usize = 1;
    while i < v.len()
        invariant
            1 <= i,
            v@ == name@,
            name@ == file_name_of(path@),
            name@ != ".."@,
            forall|j: int| 0 < j < i && j < name@.len() ==> name@[j] != '.',
        decreases v.len() - i,
    {
        if v[i] == '.' {
            return true;
        }
        i += 1;
    }
    false
}

/// Starts an init of the project that the directory `working_dir` lies in,
/// with its store at `storage_dir`.
pub fn dvs_init(
    storage_dir: &String,
    octal_permissions: Option<i32>,
    group_name: Option<String>,
    working_dir: &String,
) -> (p: InitProgress)
    ensures
        p@ == init_start(storage_dir@, octal_permissions, opt_text(group_name), working_dir@),
{
    InitProgress::Pending(
        InitRun {
            stage: InitStage::FindingRepo,
            storage_dir: storage_dir.clone(),
            octal_permissions,
            group_name,
            git_dir: String::new(),
            mode: DEFAULT_FILE_PERMISSIONS,
            absolute: String::new(),
            events: Vec::new(),
        },
        Request::FindRepo { dir: working_dir.clone() },
    )
}

impl InitRun {
    fn fail(self, error: InitErrorType, message: String) -> (p: InitProgress)
        ensures
            p@ == self@.fail(error, message@),
    {
        InitProgress::Done(Err(InitError { error, error_message: message }), self.events)
    }

    fn ask(self, stage: InitStage, request: Request) -> (p: InitProgress)
        ensures
            p@ == InitProgressView::Pending(InitRunView { stage, ..self@ }, request@),
    {
        let mut m = self;
        m.stage = stage;
        InitProgress::Pending(m, request)
    }

    fn tell(self, event: InitEvent) -> (m: InitRun)
        ensures
            m@ == self@.tell(event),
    {
        let mut m = self;
        m.events.push(event);
        m
    }

    fn group_text(&self) -> (s: String)
        ensures
            s@ == text_or_empty(self@.group_name),
    {
        match &self.group_name {
            Some(g) => g.clone(),
            None => String::new(),
        }
    }

    fn settled(&self) -> (i: Init)
        ensures
            i@ == self@.settled(),
    {
        Init {
            storage_directory: self.absolute.clone(),
            group: self.group_text(),
            permissions: self.mode,
        }
    }

    fn config(&self) -> (c: Config)
        ensures
            c@ == self@.config(),
    {
        Config {
            storage_dir: self.absolute.clone(),
            permissions: match self.octal_permissions {
                Some(p) => p,
                None => DEFAULT_PERMISSIONS_NUMBER,
            },
            group: self.group_text(),
        }
    }

    fn agrees_with(&self, existing: &Config) -> (b: bool)
        ensures
            b == self@.agrees_with(existing@),
    {
        let same_mode = match get_mode_u32(&existing.permissions) {
            Ok(mode) => mode == self.mode,
            Err(_) => false,
        };
        existing.storage_dir == self.absolute && existing.group == self.group_text() && same_mode
    }

    fn after_group(self) -> (p: InitProgress)
        ensures
            p@ == self@.after_group(),
    {
        let mode = match self.octal_permissions {
            None => DEFAULT_FILE_PERMISSIONS,
            Some(number) => match get_mode_u32(&number) {
                Ok(mode) => mode,
                Err(_) => {
                    let mut text = String::from_str("linux permissions: ");
                    text.append(signed_decimal_string(number as i64).as_str());
                    text.append(" not valid. invalid digit found in string");
                    return self.fail(InitErrorType::PermissionsInvalid, text);
                },
            },
        };
        let request = Request::Absolutize { path: self.storage_dir.clone() };
        let mut m = self;
        m.stage = InitStage::MakingAbsolute;
        m.mode = mode;
        InitProgress::Pending(m, request)
    }

    fn resolve(self) -> (p: InitProgress)
        ensures
            p@ == self@.resolve(),
    {
        let request = Request::Resolve { path: self.absolute.clone() };
        self.ask(InitStage::Resolving, request)
    }

    /// Goes on with the answer to the last request.
    pub fn step(self, reply: Reply) -> (p: InitProgress)
        ensures
            p@ == init_next(self@, reply@),
    {
        match self.stage {
            InitStage::FindingRepo => match reply {
                Reply::Text(git_dir) => {
                    let mut found = self;
                    found.git_dir = git_dir;
                    match &found.group_name {
                        Some(name) => {
                            let request = Request::LookupGroup { name: name.clone() };
                            found.ask(InitStage::CheckingGroup, request)
                        },
                        None => found.after_group(),
                    }
                },
                other => {
                    let mut text = String::from_str(
                        "make sure you're in an active git repository. ",
                    );
                    text.append(other.reason_text().as_str());
                    self.fail(InitErrorType::GitRepoNotFound, text)
                },
            },
            InitStage::CheckingGroup => match reply {
                Reply::Done => self.after_group(),
                other => {
                    let mut text = String::from_str("could not find group ");
                    text.append(self.group_text().as_str());
                    text.append(". ");
                    text.append(other.reason_text().as_str());
                    self.fail(InitErrorType::GroupNotFound, text)
                },
            },
            InitStage::MakingAbsolute => match reply {
                Reply::Text(absolute) => {
                    let request = Request::ReadConfig { path: config_path(&self.git_dir) };
                    let mut m = self;
                    m.stage = InitStage::ReadingConfig;
                    m.absolute = absolute;
                    InitProgress::Pending(m, request)
                },
                other => {
                    let text = other.reason_text();
                    self.fail(InitErrorType::StorageDirAbsPathNotFound, text)
                },
            },
            InitStage::ReadingConfig => match reply {
                Reply::Settings(existing) => {
                    if self.agrees_with(&existing) {
                        let settled = self.settled();
                        InitProgress::Done(Ok(settled), self.events)
                    } else {
                        let mut text = String::from_str(
                            "dvs configuration settings already set in project; change manually by updating dvs.yaml in project root: ",
                        );
                        text.append(config_path(&self.git_dir).as_str());
                        self.fail(InitErrorType::ProjAlreadyInited, text)
                    }
                },
                _ => {
                    let request = Request::Exists { path: self.absolute.clone() };
                    if name_has_extension(&self.absolute) {
                        self.tell(InitEvent::LooksLikeFile).ask(InitStage::Probing, request)
                    } else {
                        self.ask(InitStage::Probing, request)
                    }
                },
            },
            InitStage::Probing => match reply {
                Reply::Flag(true) => {
                    let request = Request::IsDirectory { path: self.absolute.clone() };
                    self.ask(InitStage::CheckingDirectory, request)
                },
                _ => {
                    let request = Request::MakeDirectory { path: self.absolute.clone() };
                    self.tell(InitEvent::Creating).ask(InitStage::Creating, request)
                },
            },
            InitStage::Creating => match reply {
                Reply::Done => {
                    let request = Request::SetPermissions {
                        path: self.absolute.clone(),
                        mode: STORAGE_DIR_PERMISSIONS,
                    };
                    self.ask(InitStage::Permitting, request)
                },
                other => {
                    let mut text = self.storage_dir.clone();
                    text.append(" not created. ");
                    text.append(other.reason_text().as_str());
                    self.fail(InitErrorType::StorageDirNotCreated, text)
                },
            },
            InitStage::Permitting => match reply {
                Reply::Done => {
                    let request = Request::StartLog {
                        path: join(self.absolute.as_str(), "audit.log"),
                        mode: self.mode,
                        log_group: self.group_name.clone(),
                    };
                    self.ask(InitStage::Logging, request)
                },
                other => {
                    let text = other.reason_text();
                    self.fail(InitErrorType::StorageDirPermsNotSet, text)
                },
            },
            InitStage::Logging => self.resolve(),
            InitStage::CheckingDirectory => match reply {
                Reply::Flag(true) => {
                    let request = Request::IsEmpty { path: self.absolute.clone() };
                    self.tell(InitEvent::AlreadyExists).ask(InitStage::CheckingEmpty, request)
                },
                _ => self.fail(
                    InitErrorType::StorageDirNotADir,
                    String::from_str("file path inputted"),
                ),
            },
            InitStage::CheckingEmpty => match reply {
                Reply::Flag(true) => self.resolve(),
                Reply::Flag(false) => self.tell(InitEvent::NotEmpty).resolve(),
                other => {
                    let text = other.reason_text();
                    self.fail(InitErrorType::DirEmptyNotChecked, text)
                },
            },
            InitStage::Resolving => {
                let inside = dir_in_git_repo(&reply.into_text(), &self.git_dir);
                let request = Request::WriteConfig {
                    path: config_path(&self.git_dir),
                    config: self.config(),
                };
                if inside {
                    self.tell(InitEvent::InsideRepository).ask(InitStage::Writing, request)
                } else {
                    self.ask(InitStage::Writing, request)
                }
            },
            InitStage::Writing => match reply {
                Reply::Done => {
                    let settled = self.settled();
                    let m = self.tell(InitEvent::Initialized);
                    InitProgress::Done(Ok(settled), m.events)
                },
                other => {
                    let text = other.reason_text();
                    self.fail(InitErrorType::ConfigNotCreated, text)
                },
            },
        }
    }
}

} // verus!
