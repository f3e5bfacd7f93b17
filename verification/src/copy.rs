//! Copying a file to its place and giving the copy its permission bits and
//! its group: three requests, each of which may fail in a way of its own.

use vstd::prelude::*;
use crate::text::{opt_text, decimal, decimal_string};
use crate::error::FileErrorType;
use crate::exchange::{Request, RequestView, Reply, ReplyView};

verus! {

/// Which of the three requests is out.
#[derive(Clone, Copy, PartialEq, Eq, Debug, Structural)]
pub enum CopyStage {
    Copying,
    SettingMode,
    SettingGroup,
}

/// What comes next in a copy: a request, the end, or a failure with its
/// kind and detail.
#[derive(Debug, PartialEq, Eq)]
pub enum CopyStep {
    Ask(CopyStage, Request),
    Done,
    Failed(FileErrorType, Option<String>),
}

/// What a [`CopyStep`] holds, with every text as its characters.
pub enum CopyStepView {
    Ask(CopyStage, RequestView),
    Done,
    Failed(FileErrorType, Option<Seq<char>>),
}

impl View for CopyStep {
    type V = CopyStepView;

    open spec fn view(&self) -> CopyStepView {
        match *self {
            CopyStep::Ask(stage, request) => CopyStepView::Ask(stage, request@),
            CopyStep::Done => CopyStepView::Done,
            CopyStep::Failed(kind, message) => CopyStepView::Failed(kind, opt_text(message)),
        }
    }
}

/// Whether a path is one of the two that stand for a directory itself or
/// for its parent, which are never copied.
pub open spec fn is_dot_path(path: Seq<char>) -> bool {
    path == "."@ || path == ".."@
}

/// The first move of a copy: the source is refused where it is `.` or `..`,
/// else the bytes are asked to be copied.
pub open spec fn copy_start(from: Seq<char>, to: Seq<char>) -> CopyStepView {
    if is_dot_path(from) {
        CopyStepView::Failed(
            FileErrorType::FileNotCopied,
            Some("copy failed: \"..\" and \".\" paths not parsable"@),
        )
    } else {
        CopyStepView::Ask(CopyStage::Copying, RequestView::Copy { from, to })
    }
}

/// The move to the permission bits.
pub open spec fn mode_step(mode: u32, path: Seq<char>) -> CopyStepView {
    CopyStepView::Ask(CopyStage::SettingMode, RequestView::SetPermissions { path, mode })
}

/// The move to the group: a request where a group is enforced, the end where
/// none is.
pub open spec fn group_step(group: Option<Seq<char>>, path: Seq<char>) -> CopyStepView {
    match group {
        Some(g) => CopyStepView::Ask(
            CopyStage::SettingGroup,
            RequestView::SetGroup { path, group: g },
        ),
        None => CopyStepView::Done,
    }
}

/// The move after an answer. After the bytes come the permission bits, after
/// them the group. Any answer but `Done` fails the request that was out: the
/// copy itself, the permission bits, or the group.
pub open spec fn copy_next(
    stage: CopyStage,
    reply: ReplyView,
    dest: Seq<char>,
    mode: u32,
    group: Option<Seq<char>>,
) -> CopyStepView {
    match stage {
        CopyStage::Copying => match reply {
            ReplyView::Done => mode_step(mode, dest),
            _ => CopyStepView::Failed(FileErrorType::FileNotCopied, reply.reason()),
        },
        CopyStage::SettingMode => match reply {
            ReplyView::Done => group_step(group, dest),
            _ => CopyStepView::Failed(
                FileErrorType::PermissionsNotSet,
                Some(decimal(mode as nat) + " "@ + reply.reason_text()),
            ),
        },
        CopyStage::SettingGroup => match reply {
            ReplyView::Done => CopyStepView::Done,
            _ => CopyStepView::Failed(
                FileErrorType::GroupNotSet,
                Some(
                    (match group {
                        Some(g) => g,
                        None => Seq::empty(),
                    }) + " "@ + reply.reason_text(),
                ),
            ),
        },
    }
}

fn is_dot(path: &String) -> (b: bool)
    ensures
        b == is_dot_path(path@),
{
    let one = String::from_str(".");
    let two = String::from_str("..");
    *path == one || *path == two
}

/// Starts the copy of `local_path` to `storage_path`.
pub fn copy(local_path: &String, storage_path: &String) -> (step: CopyStep)
    ensures
        step@ == copy_start(local_path@, storage_path@),
{
    if is_dot(local_path) {
        CopyStep::Failed(
            FileErrorType::FileNotCopied,
            Some(String::from_str("copy failed: \"..\" and \".\" paths not parsable")),
        )
    } else {
        CopyStep::Ask(
            CopyStage::Copying,
            Request::Copy { from: local_path.clone(), to: storage_path.clone() },
        )
    }
}

/// Asks for the permission bits `mode` on the copy at `local_path`.
pub fn set_file_permissions(mode: &u32, local_path: &String) -> (step: CopyStep)
    ensures
        step@ == mode_step(*mode, local_path@),
{
    CopyStep::Ask(
        CopyStage::SettingMode,
        Request::SetPermissions { path: local_path.clone(), mode: *mode },
    )
}

/// Asks for the group on the copy at `local_path`, where one is enforced.
pub fn set_group(group: &Option<String>, local_path: &String) -> (step: CopyStep)
    ensures
        step@ == group_step(opt_text(*group), local_path@),
{
    match group {
        Some(g) => CopyStep::Ask(
            CopyStage::SettingGroup,
            Request::SetGroup { path: local_path.clone(), group: g.clone() },
        ),
        None => CopyStep::Done,
    }
}

/// Starts the copy of a file into the store: the bytes first; the
/// permission bits and the group follow through `copy_step`.
pub fn copy_file_to_storage_directory(local_path: &String, storage_path: &String) -> (step:
    CopyStep)
    ensures
        step@ == copy_start(local_path@, storage_path@),
{
    copy(local_path, storage_path)
}

/// Goes on with a copy to `dest` after the answer to the request of `stage`.
pub fn copy_step(
    stage: CopyStage,
    reply: &Reply,
    dest: &String,
    permissions: &u32,
    group: &Option<String>,
) -> (step: CopyStep)
    ensures
        step@ == copy_next(stage, reply@, dest@, *permissions, opt_text(*group)),
{
    match stage {
        CopyStage::Copying => match reply {
            Reply::Done => set_file_permissions(permissions, dest),
            _ => CopyStep::Failed(FileErrorType::FileNotCopied, reply.reason()),
        },
        CopyStage::SettingMode => match reply {
            Reply::Done => set_group(group, dest),
            _ => {
                let mut m = decimal_string(*permissions as u64);
                m.append(" ");
                m.append(reply.reason_text().as_str());
                CopyStep::Failed(FileErrorType::PermissionsNotSet, Some(m))
            },
        },
        CopyStage::SettingGroup => match reply {
            Reply::Done => CopyStep::Done,
            _ => {
                let mut m = match group {
                    Some(g) => g.clone(),
                    None => String::new(),
                };
                m.append(" ");
                m.append(reply.reason_text().as_str());
                CopyStep::Failed(FileErrorType::GroupNotSet, Some(m))
            },
        },
    }
}

} // verus!
