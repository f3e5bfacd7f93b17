//! The settings of a project: where the store lies, and the permission bits
//! and group that every stored and every retrieved copy gets.

use vstd::prelude::*;
use crate::text::{opt_text, signed_decimal, signed_decimal_string};
use crate::path::{join, joined};
use crate::error::{BatchError, BatchErrorType, BatchErrorView};

verus! {

/// The settings as the project's configuration file holds them.
#[derive(Debug, PartialEq, Eq)]
pub struct Config {
    pub storage_dir: String,
    /// The permission bits, written as a decimal number whose digits are
    /// read as octal ones: `664` stands for `0o664`.
    pub permissions: i32,
    /// The group's name; empty where no group is enforced.
    pub group: String,
}

/// What a [`Config`] holds, with every text as its characters.
pub struct ConfigView {
    pub storage_dir: Seq<char>,
    pub permissions: i32,
    pub group: Seq<char>,
}

impl View for Config {
    type V = ConfigView;

    open spec fn view(&self) -> ConfigView {
        ConfigView {
            storage_dir: self.storage_dir@,
            permissions: self.permissions,
            group: self.group@,
        }
    }
}

impl Clone for Config {
    fn clone(&self) -> (r: Self)
        ensures
            r == *self,
    {
        Config {
            storage_dir: self.storage_dir.clone(),
            permissions: self.permissions,
            group: self.group.clone(),
        }
    }
}

/// The settings that a batch works under, once they are checked.
#[derive(Debug, PartialEq, Eq)]
pub struct Settings {
    /// The repository root.
    pub git_dir: String,
    /// The store's root, resolved.
    pub storage_dir: String,
    /// The permission bits of every copy.
    pub permissions: u32,
    /// The group of every copy, where one is enforced.
    pub group: Option<String>,
}

/// What a [`Settings`] holds, with every text as its characters.
pub struct SettingsView {
    pub git_dir: Seq<char>,
    pub storage_dir: Seq<char>,
    pub permissions: u32,
    pub group: Option<Seq<char>>,
}

impl View for Settings {
    type V = SettingsView;

    open spec fn view(&self) -> SettingsView {
        SettingsView {
            git_dir: self.git_dir@,
            storage_dir: self.storage_dir@,
            permissions: self.permissions,
            group: opt_text(self.group),
        }
    }
}

impl Clone for Settings {
    fn clone(&self) -> (r: Self)
        ensures
            r == *self,
    {
        Settings {
            git_dir: self.git_dir.clone(),
            storage_dir: self.storage_dir.clone(),
            permissions: self.permissions,
            group: self.group.clone(),
        }
    }
}

/// The name of the configuration file.
pub open spec fn config_file_name() -> Seq<char> {
    "dvs.yaml"@
}

/// Where the configuration file of the repository at `root_dir` lies.
pub fn config_path(root_dir: &String) -> (p: String)
    ensures
        p@ == joined(root_dir@, config_file_name()),
{
    join(root_dir.as_str(), "dvs.yaml")
}

/// The number whose octal digits are the decimal digits of `n`; none where a
/// digit of `n` is 8 or 9.
pub open spec fn octal_reading(n: nat) -> Option<nat>
    decreases n,
{
    if n < 10 {
        if n < 8 {
            Some(n)
        } else {
            None
        }
    } else {
        match octal_reading(n / 10) {
            Some(high) => if n % 10 < 8 {
                Some(high * 8 + n % 10)
            } else {
                None
            },
            None => None,
        }
    }
}

/// Reading decimal digits as octal ones never gives more than the number.
pub proof fn lemma_octal_reading_bound(n: nat)
    ensures
        octal_reading(n) matches Some(v) ==> v <= n,
    decreases n,
{
    if n >= 10 {
        lemma_octal_reading_bound(n / 10);
    }
}

fn read_octal(n: u32) -> (r: Option<u32>)
    ensures
        match r {
            Some(v) => octal_reading(n as nat) == Some(v as nat),
            None => octal_reading(n as nat).is_none(),
        },
    decreases n,
{
    if n < 10 {
        if n < 8 {
            Some(n)
        } else {
            None
        }
    } else {
        match read_octal(n / 10) {
            Some(high) => {
                if n % 10 < 8 {
                    proof {
                        lemma_octal_reading_bound((n / 10) as nat);
                    }
                    Some(high * 8 + n % 10)
                } else {
                    None
                }
            },
            None => None,
        }
    }
}

/// The error for permissions that are no octal number.
pub open spec fn permissions_error_view(permissions: i32) -> BatchErrorView {
    BatchErrorView {
        error: BatchErrorType::PermissionsInvalid,
        error_message: "change permissions: "@ + signed_decimal(permissions as int)
            + " in dvs.yaml, invalid digit found in string"@,
    }
}

/// The permission bits that the configured number stands for: a number that
/// is not negative and has no digit above 7 is read as octal, any other is
/// refused.
pub open spec fn mode_of(permissions: i32) -> Result<u32, BatchErrorView> {
    if permissions >= 0 && octal_reading(permissions as nat).is_some() {
        Ok(octal_reading(permissions as nat).unwrap() as u32)
    } else {
        Err(permissions_error_view(permissions))
    }
}

/// The view of a result whose error is a batch error.
pub open spec fn batch_result<T>(r: Result<T, BatchError>) -> Result<T, BatchErrorView> {
    match r {
        Ok(v) => Ok(v),
        Err(e) => Err(e@),
    }
}

/// Reads the configured number as permission bits.
pub fn get_mode_u32(permissions: &i32) -> (r: Result<u32, BatchError>)
    ensures
        batch_result(r) == mode_of(*permissions),
{
    let p: i32 = *permissions;
    if p >= 0 {
        proof {
            lemma_octal_reading_bound(p as nat);
        }
        match read_octal(p as u32) {
            Some(v) => {
                return Ok(v);
            },
            None => {},
        }
    }
    let mut m = String::from_str("change permissions: ");
    let number = signed_decimal_string(p as i64);
    m.append(number.as_str());
    m.append(" in dvs.yaml, invalid digit found in string");
    Err(BatchError { error: BatchErrorType::PermissionsInvalid, error_message: m })
}

/// The group to enforce: none for the empty name; else the name, unless the
/// system knows no such group.
pub open spec fn group_of(group_name: Seq<char>, lookup_error: Option<Seq<char>>) -> Result<
    Option<Seq<char>>,
    BatchErrorView,
> {
    if group_name.len() == 0 {
        Ok(None)
    } else {
        match lookup_error {
            None => Ok(Some(group_name)),
            Some(e) => Err(
                BatchErrorView {
                    error: BatchErrorType::GroupNotFound,
                    error_message: "change group: "@ + group_name + " in dvs.yaml, "@ + e,
                },
            ),
        }
    }
}

/// The view of a result that holds an optional text or a batch error.
pub open spec fn group_result(r: Result<Option<String>, BatchError>) -> Result<
    Option<Seq<char>>,
    BatchErrorView,
> {
    match r {
        Ok(g) => Ok(opt_text(g)),
        Err(e) => Err(e@),
    }
}

/// Settles the group of a batch. `lookup_error` is what looking the group up
/// on this system failed with, if it failed; it is not read for the empty name.
pub fn get_group(group_name: &String, lookup_error: Option<String>) -> (r: Result<
    Option<String>,
    BatchError,
>)
    ensures
        group_result(r) == group_of(group_name@, opt_text(lookup_error)),
{
    if group_name.as_str().unicode_len() == 0 {
        Ok(None)
    } else {
        match lookup_error {
            None => Ok(Some(group_name.clone())),
            Some(e) => {
                let mut m = String::from_str("change group: ");
                m.append(group_name.as_str());
                m.append(" in dvs.yaml, ");
                m.append(e.as_str());
                Err(BatchError { error: BatchErrorType::GroupNotFound, error_message: m })
            },
        }
    }
}

/// The store's root: the configured directory, resolved; a directory that
/// cannot be resolved is refused.
pub open spec fn storage_dir_of(storage_dir: Seq<char>, canonical: Result<String, String>) -> Result<
    Seq<char>,
    BatchErrorView,
> {
    match canonical {
        Ok(c) => Ok(c@),
        Err(e) => Err(
            BatchErrorView {
                error: BatchErrorType::StorageDirNotFound,
                error_message: "change storage_dir: "@ + storage_dir + " in dvs.yaml, "@ + e@,
            },
        ),
    }
}

/// Settles the store's root from what resolving the configured directory
/// gave.
pub fn get_storage_dir(storage_dir: &String, canonical: Result<String, String>) -> (r: Result<
    String,
    BatchError,
>)
    ensures
        crate::repo::batch_result_text(r) == storage_dir_of(storage_dir@, canonical),
{
    match canonical {
        Ok(c) => Ok(c),
        Err(e) => {
            let mut m = String::from_str("change storage_dir: ");
            m.append(storage_dir.as_str());
            m.append(" in dvs.yaml, ");
            m.append(e.as_str());
            Err(BatchError { error: BatchErrorType::StorageDirNotFound, error_message: m })
        },
    }
}

/// The configuration as read: what was loaded, or the error of a project
/// that has none that can be read.
pub open spec fn config_of(loaded: Result<Config, String>) -> Result<ConfigView, BatchErrorView> {
    match loaded {
        Ok(c) => Ok(c@),
        Err(e) => Err(
            BatchErrorView {
                error: BatchErrorType::ConfigNotFound,
                error_message:
                    "could not load configuration file, i.e. no dvs.yaml in directory; be sure to initiate dvs: "@
                    + e@,
            },
        ),
    }
}

/// The view of a result that holds a configuration or a batch error.
pub open spec fn config_result(r: Result<Config, BatchError>) -> Result<ConfigView, BatchErrorView> {
    match r {
        Ok(c) => Ok(c@),
        Err(e) => Err(e@),
    }
}

/// Takes what loading the configuration file gave.
pub fn read(loaded: Result<Config, String>) -> (r: Result<Config, BatchError>)
    ensures
        config_result(r) == config_of(loaded),
{
    match loaded {
        Ok(c) => Ok(c),
        Err(e) => {
            let mut m = String::from_str(
                "could not load configuration file, i.e. no dvs.yaml in directory; be sure to initiate dvs: ",
            );
            m.append(e.as_str());
            Err(BatchError { error: BatchErrorType::ConfigNotFound, error_message: m })
        },
    }
}

/// The settings of a batch in the repository at `git_dir`: the group first,
/// then the store's root, then the permission bits; the first of them that
/// is refused is the batch's error.
pub open spec fn settings_of(
    git_dir: Seq<char>,
    config: ConfigView,
    group_lookup_error: Option<Seq<char>>,
    storage_canonical: Result<String, String>,
) -> Result<SettingsView, BatchErrorView> {
    match group_of(config.group, group_lookup_error) {
        Err(e) => Err(e),
        Ok(group) => match storage_dir_of(config.storage_dir, storage_canonical) {
            Err(e) => Err(e),
            Ok(storage_dir) => match mode_of(config.permissions) {
                Err(e) => Err(e),
                Ok(permissions) => Ok(SettingsView { git_dir, storage_dir, permissions, group }),
            },
        },
    }
}

/// The view of a result that holds settings or a batch error.
pub open spec fn settings_result(r: Result<Settings, BatchError>) -> Result<
    SettingsView,
    BatchErrorView,
> {
    match r {
        Ok(s) => Ok(s@),
        Err(e) => Err(e@),
    }
}

/// Checks a configuration and makes the settings of a batch from it.
/// `group_lookup_error` is what looking the configured group up failed
/// with, if it failed, and `storage_canonical` the configured storage
/// directory, resolved.
pub fn settle(
    git_dir: &String,
    config: &Config,
    group_lookup_error: Option<String>,
    storage_canonical: Result<String, String>,
) -> (r: Result<Settings, BatchError>)
    ensures
        settings_result(r) == settings_of(
            git_dir@,
            config@,
            opt_text(group_lookup_error),
            storage_canonical,
        ),
{
    let group = match get_group(&config.group, group_lookup_error) {
        Ok(g) => g,
        Err(e) => {
            return Err(e);
        },
    };
    let storage_dir = match get_storage_dir(&config.storage_dir, storage_canonical) {
        Ok(d) => d,
        Err(e) => {
            return Err(e);
        },
    };
    let permissions = match get_mode_u32(&config.permissions) {
        Ok(m) => m,
        Err(e) => {
            return Err(e);
        },
    };
    Ok(Settings { git_dir: git_dir.clone(), storage_dir, permissions, group })
}

} // verus!
