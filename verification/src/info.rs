//! What the system records of a file: its owner, its group, its times and
//! its permission bits.

use vstd::prelude::*;
use crate::text::digit_char;

verus! {

/// What the system records of one file, in the form for a report.
#[derive(Debug, PartialEq, Eq)]
pub struct FileInfo {
    pub path: String,
    pub user_id: u32,
    pub user_name: String,
    pub group_id: u32,
    pub group_name: String,
    /// Seconds since the epoch.
    pub creation_time: u64,
    /// Seconds since the epoch.
    pub modification_time: u64,
    /// The mode, as an octal numeral.
    pub permissions: String,
}

/// What a [`FileInfo`] holds, with every text as its characters.
pub struct FileInfoView {
    pub path: Seq<char>,
    pub user_id: u32,
    pub user_name: Seq<char>,
    pub group_id: u32,
    pub group_name: Seq<char>,
    pub creation_time: u64,
    pub modification_time: u64,
    pub permissions: Seq<char>,
}

impl View for FileInfo {
    type V = FileInfoView;

    open spec fn view(&self) -> FileInfoView {
        FileInfoView {
            path: self.path@,
            user_id: self.user_id,
            user_name: self.user_name@,
            group_id: self.group_id,
            group_name: self.group_name@,
            creation_time: self.creation_time,
            modification_time: self.modification_time,
            permissions: self.permissions@,
        }
    }
}

/// What the system gave when it was asked about one file.
#[derive(Debug, PartialEq, Eq)]
pub struct FileFacts {
    pub user_id: u32,
    /// The name of the owner; none where the system knows no name for it.
    pub user_name: Result<Option<String>, String>,
    pub group_id: u32,
    /// The name of the group; none where the system knows no name for it.
    pub group_name: Result<Option<String>, String>,
    pub modification_time: Result<u64, String>,
    pub creation_time: Result<u64, String>,
    pub mode: u32,
}

/// The octal numeral of `n`, without sign or padding.
pub open spec fn octal(n: nat) -> Seq<char>
    decreases n,
{
    if n < 8 {
        seq![digit_char(n as int)]
    } else {
        octal(n / 8).push(digit_char((n % 8) as int))
    }
}

fn octal_digit(d: u32) -> (c: char)
    requires
        d < 8,
    ensures
        c == digit_char(d as int),
{
    if d == 0 {
        '0'
    } else if d == 1 {
        '1'
    } else if d == 2 {
        '2'
    } else if d == 3 {
        '3'
    } else if d == 4 {
        '4'
    } else if d == 5 {
        '5'
    } else if d == 6 {
        '6'
    } else {
        '7'
    }
}

fn push_octal(out: &mut String, n: u32)
    ensures
        final(out)@ == old(out)@ + octal(n as nat),
    decreases n,
{
    if n >= 8 {
        push_octal(out, n / 8);
    }
    out.push(octal_digit(n % 8));
    assert(final(out)@ =~= old(out)@ + octal(n as nat));
}

/// The octal numeral of a mode.
pub fn octal_string(mode: u32) -> (s: String)
    ensures
        s@ == octal(mode as nat),
{
    let mut s = String::new();
    push_octal(&mut s, mode);
    assert(s@ =~= octal(mode as nat));
    s
}

/// The report on one file: the first thing that the system could not tell
/// is the error, in the order owner, group, modification time, creation
/// time. An owner without a name is an error too; a group without a name
/// has the empty name.
pub open spec fn info_of(path: Seq<char>, facts: Result<FileFacts, String>) -> Result<
    FileInfoView,
    Seq<char>,
> {
    match facts {
        Err(e) => Err(e@),
        Ok(f) => match f.user_name {
            Err(e) => Err(e@),
            Ok(None) => Err("owner not found"@),
            Ok(Some(user_name)) => match f.group_name {
                Err(e) => Err(e@),
                Ok(group) => match f.modification_time {
                    Err(e) => Err(e@),
                    Ok(modification_time) => match f.creation_time {
                        Err(e) => Err(e@),
                        Ok(creation_time) => Ok(
                            FileInfoView {
                                path,
                                user_id: f.user_id,
                                user_name: user_name@,
                                group_id: f.group_id,
                                group_name: match group {
                                    Some(g) => g@,
                                    None => Seq::empty(),
                                },
                                creation_time,
                                modification_time,
                                permissions: octal(f.mode as nat),
                            },
                        ),
                    },
                },
            },
        },
    }
}

/// The view of a report or its error.
pub open spec fn info_result(r: Result<FileInfo, String>) -> Result<FileInfoView, Seq<char>> {
    match r {
        Ok(i) => Ok(i@),
        Err(e) => Err(e@),
    }
}

/// Makes the report on the file at `path` from what the system gave.
pub fn file_info(path: &String, facts: &Result<FileFacts, String>) -> (r: Result<FileInfo, String>)
    ensures
        info_result(r) == info_of(path@, *facts),
{
    let f = match facts {
        Ok(f) => f,
        Err(e) => {
            return Err(e.clone());
        },
    };
    let user_name = match &f.user_name {
        Ok(Some(n)) => n.clone(),
        Ok(None) => {
            return Err(String::from_str("owner not found"));
        },
        Err(e) => {
            return Err(e.clone());
        },
    };
    let group_name = match &f.group_name {
        Ok(Some(g)) => g.clone(),
        Ok(None) => String::new(),
        Err(e) => {
            return Err(e.clone());
        },
    };
    let modification_time = match &f.modification_time {
        Ok(t) => *t,
        Err(e) => {
            return Err(e.clone());
        },
    };
    let creation_time = match &f.creation_time {
        Ok(t) => *t,
        Err(e) => {
            return Err(e.clone());
        },
    };
    Ok(
        FileInfo {
            path: path.clone(),
            user_id: f.user_id,
            user_name,
            group_id: f.group_id,
            group_name,
            creation_time,
            modification_time,
            permissions: octal_string(f.mode),
        },
    )
}

/// The reports on `paths`, one per path and in order, from the facts that
/// the system gave for each. A path without facts gets a failure without a
/// reason.
pub fn info(paths: &Vec<String>, facts: &Vec<Result<FileFacts, String>>) -> (r: Vec<
    Result<FileInfo, String>,
>)
    ensures
        r@.len() == paths@.len(),
        forall|i: int|
            0 <= i < paths@.len() && i < facts@.len() ==> info_result(#[trigger] r@[i]) == info_of(
                paths@[i]@,
                facts@[i],
            ),
        forall|i: int|
            facts@.len() <= i < paths@.len() ==> info_result(#[trigger] r@[i]) == Err::<
                FileInfoView,
                Seq<char>,
            >(Seq::empty()),
{
    let mut out: Vec<Result<FileInfo, String>> = Vec::new();
    let mut i: usize = 0;
    while i < paths.len()
        invariant
            i <= paths.len(),
            out@.len() == i,
            forall|k: int|
                0 <= k < i && k < facts@.len() ==> info_result(#[trigger] out@[k]) == info_of(
                    paths@[k]@,
                    facts@[k],
                ),
            forall|k: int|
                facts@.len() <= k < i ==> info_result(#[trigger] out@[k]) == Err::<
                    FileInfoView,
                    Seq<char>,
                >(Seq::empty()),
        decreases paths.len() - i,
    {
        let one = if i < facts.len() {
            file_info(&paths[i], &facts[i])
        } else {
            Err(String::new())
        };
        out.push(one);
        i += 1;
    }
    out
}

} // verus!
