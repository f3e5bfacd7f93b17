//! The results of a batch as rows of a report: one row per file, and the
//! rows of the files that succeeded apart from those of the files that
//! failed.

use vstd::prelude::*;
use crate::text::opt_text;
use crate::outcome::{Outcome, Status};
use crate::error::{FileError, FileErrorView};
use crate::add::{AddedFile, AddedFileView};
use crate::get::{RetrievedFile, RetrievedFileView};
use crate::status::{FileStatus, FileStatusView};

verus! {

/// One row of a report. A row of a file that failed has an error and the
/// input; a row of a file that succeeded has neither.
#[derive(Debug, PartialEq, Eq)]
pub struct FileRow {
    pub relative_path: Option<String>,
    /// The outcome or the status, as text.
    pub outcome: String,
    pub size: Option<u64>,
    pub blake3_checksum: Option<String>,
    pub add_time: Option<String>,
    pub saved_by: Option<String>,
    pub message: Option<String>,
    pub absolute_path: Option<String>,
    pub input: Option<String>,
    pub error: Option<String>,
    pub error_message: Option<String>,
}

/// What a [`FileRow`] holds, with every text as its characters.
pub struct FileRowView {
    pub relative_path: Option<Seq<char>>,
    pub outcome: Seq<char>,
    pub size: Option<u64>,
    pub blake3_checksum: Option<Seq<char>>,
    pub add_time: Option<Seq<char>>,
    pub saved_by: Option<Seq<char>>,
    pub message: Option<Seq<char>>,
    pub absolute_path: Option<Seq<char>>,
    pub input: Option<Seq<char>>,
    pub error: Option<Seq<char>>,
    pub error_message: Option<Seq<char>>,
}

impl View for FileRow {
    type V = FileRowView;

    open spec fn view(&self) -> FileRowView {
        FileRowView {
            relative_path: opt_text(self.relative_path),
            outcome: self.outcome@,
            size: self.size,
            blake3_checksum: opt_text(self.blake3_checksum),
            add_time: opt_text(self.add_time),
            saved_by: opt_text(self.saved_by),
            message: opt_text(self.message),
            absolute_path: opt_text(self.absolute_path),
            input: opt_text(self.input),
            error: opt_text(self.error),
            error_message: opt_text(self.error_message),
        }
    }
}

/// The row of a file that failed, with the text that stands for a failure
/// among the outcomes of the report.
pub open spec fn error_row(e: FileErrorView, outcome: Seq<char>) -> FileRowView {
    FileRowView {
        relative_path: e.relative_path,
        outcome,
        size: None,
        blake3_checksum: None,
        add_time: None,
        saved_by: None,
        message: None,
        absolute_path: e.absolute_path,
        input: Some(e.input),
        error: Some(e.error.text()),
        error_message: e.error_message,
    }
}

/// The row of a file that was added or retrieved.
pub open spec fn success_row(
    relative_path: Seq<char>,
    outcome: Outcome,
    size: u64,
    blake3_checksum: Seq<char>,
    absolute_path: Seq<char>,
) -> FileRowView {
    FileRowView {
        relative_path: Some(relative_path),
        outcome: outcome.text(),
        size: Some(size),
        blake3_checksum: Some(blake3_checksum),
        add_time: None,
        saved_by: None,
        message: None,
        absolute_path: Some(absolute_path),
        input: None,
        error: None,
        error_message: None,
    }
}

/// The row of the result of an add.
pub open spec fn added_row_of(r: Result<AddedFileView, FileErrorView>) -> FileRowView {
    match r {
        Ok(f) => success_row(
            f.relative_path,
            f.outcome,
            f.file_size_bytes,
            f.blake3_checksum,
            f.absolute_path,
        ),
        Err(e) => error_row(e, Outcome::Error.text()),
    }
}

/// The row of the result of a get.
pub open spec fn retrieved_row_of(r: Result<RetrievedFileView, FileErrorView>) -> FileRowView {
    match r {
        Ok(f) => success_row(f.relative_path, f.outcome, f.size, f.blake3_checksum, f.absolute_path),
        Err(e) => error_row(e, Outcome::Error.text()),
    }
}

/// The row of the result of a status.
pub open spec fn status_row_of(r: Result<FileStatusView, FileErrorView>) -> FileRowView {
    match r {
        Ok(f) => FileRowView {
            relative_path: f.relative_path,
            outcome: f.status.text(),
            size: Some(f.size),
            blake3_checksum: Some(f.blake3_checksum),
            add_time: Some(f.add_time),
            saved_by: Some(f.saved_by),
            message: Some(f.message),
            absolute_path: f.absolute_path,
            input: None,
            error: None,
            error_message: None,
        },
        Err(e) => error_row(e, Status::Error.text()),
    }
}

fn make_error_row(e: &FileError, outcome: String) -> (row: FileRow)
    ensures
        row@ == error_row(e@, outcome@),
{
    FileRow {
        relative_path: e.relative_path.clone(),
        outcome,
        size: None,
        blake3_checksum: None,
        add_time: None,
        saved_by: None,
        message: None,
        absolute_path: e.absolute_path.clone(),
        input: Some(e.input.clone()),
        error: Some(e.error.file_error_to_string()),
        error_message: e.error_message.clone(),
    }
}

fn make_success_row(
    relative_path: &String,
    outcome: Outcome,
    size: u64,
    blake3_checksum: &String,
    absolute_path: &String,
) -> (row: FileRow)
    ensures
        row@ == success_row(relative_path@, outcome, size, blake3_checksum@, absolute_path@),
{
    FileRow {
        relative_path: Some(relative_path.clone()),
        outcome: outcome.outcome_to_string(),
        size: Some(size),
        blake3_checksum: Some(blake3_checksum.clone()),
        add_time: None,
        saved_by: None,
        message: None,
        absolute_path: Some(absolute_path.clone()),
        input: None,
        error: None,
        error_message: None,
    }
}

/// The row of the result of an add.
pub fn added_row(r: &Result<AddedFile, FileError>) -> (row: FileRow)
    ensures
        row@ == added_row_of(
            match *r {
                Ok(f) => Ok(f@),
                Err(e) => Err(e@),
            },
        ),
{
    match r {
        Ok(f) => make_success_row(
            &f.relative_path,
            f.outcome,
            f.file_size_bytes,
            &f.blake3_checksum,
            &f.absolute_path,
        ),
        Err(e) => make_error_row(e, Outcome::Error.outcome_to_string()),
    }
}

/// The row of the result of a get.
pub fn retrieved_row(r: &Result<RetrievedFile, FileError>) -> (row: FileRow)
    ensures
        row@ == retrieved_row_of(
            match *r {
                Ok(f) => Ok(f@),
                Err(e) => Err(e@),
            },
        ),
{
    match r {
        Ok(f) => make_success_row(
            &f.relative_path,
            f.outcome,
            f.size,
            &f.blake3_checksum,
            &f.absolute_path,
        ),
        Err(e) => make_error_row(e, Outcome::Error.outcome_to_string()),
    }
}

/// The row of the result of a status.
pub fn status_row(r: &Result<FileStatus, FileError>) -> (row: FileRow)
    ensures
        row@ == status_row_of(
            match *r {
                Ok(f) => Ok(f@),
                Err(e) => Err(e@),
            },
        ),
{
    match r {
        Ok(f) => FileRow {
            relative_path: f.relative_path.clone(),
            outcome: f.status.outcome_to_string(),
            size: Some(f.size),
            blake3_checksum: Some(f.blake3_checksum.clone()),
            add_time: Some(f.add_time.clone()),
            saved_by: Some(f.saved_by.clone()),
            message: Some(f.message.clone()),
            absolute_path: f.absolute_path.clone(),
            input: None,
            error: None,
            error_message: None,
        },
        Err(e) => make_error_row(e, Status::Error.outcome_to_string()),
    }
}

/// The views of a list of rows.
pub open spec fn row_views(rows: Seq<FileRow>) -> Seq<FileRowView> {
    rows.map_values(|r: FileRow| r@)
}

/// The rows that have an error, or those that have none, in order.
pub open spec fn rows_with(rows: Seq<FileRowView>, failed: bool) -> Seq<FileRowView>
    decreases rows.len(),
{
    if rows.len() == 0 {
        Seq::empty()
    } else if rows.last().error.is_some() == failed {
        rows_with(rows.drop_last(), failed).push(rows.last())
    } else {
        rows_with(rows.drop_last(), failed)
    }
}

impl Clone for FileRow {
    fn clone(&self) -> (r: Self)
        ensures
            r == *self,
    {
        FileRow {
            relative_path: self.relative_path.clone(),
            outcome: self.outcome.clone(),
            size: self.size,
            blake3_checksum: self.blake3_checksum.clone(),
            add_time: self.add_time.clone(),
            saved_by: self.saved_by.clone(),
            message: self.message.clone(),
            absolute_path: self.absolute_path.clone(),
            input: self.input.clone(),
            error: self.error.clone(),
            error_message: self.error_message.clone(),
        }
    }
}

/// Parts the rows of a report: those of the files that succeeded, and those
/// of the files that failed, each in the order of the report.
pub fn split_rows(rows: &Vec<FileRow>) -> (parts: (Vec<FileRow>, Vec<FileRow>))
    ensures
        row_views(parts.0@) == rows_with(row_views(rows@), false),
        row_views(parts.1@) == rows_with(row_views(rows@), true),
{
    let ghost all = row_views(rows@);
    let mut successes: Vec<FileRow> = Vec::new();
    let mut failures: Vec<FileRow> = Vec::new();
    proof {
        assert(row_views(successes@) =~= Seq::<FileRowView>::empty());
        assert(row_views(failures@) =~= Seq::<FileRowView>::empty());
        assert(all.take(0) =~= Seq::<FileRowView>::empty());
    }
    let mut i: usize = 0;
    while i < rows.len()
        invariant
            i <= rows.len(),
            all == row_views(rows@),
            row_views(successes@) == rows_with(all.take(i as int), false),
            row_views(failures@) == rows_with(all.take(i as int), true),
        decreases rows.len() - i,
    {
        proof {
            assert(all.take(i + 1).drop_last() =~= all.take(i as int));
            assert(all.take(i + 1).last() == rows@[i as int]@);
        }
        let ghost old_s = row_views(successes@);
        let ghost old_f = row_views(failures@);
        let row = rows[i].clone();
        if row.error.is_some() {
            failures.push(row);
            assert(row_views(failures@) =~= old_f.push(row@));
        } else {
            successes.push(row);
            assert(row_views(successes@) =~= old_s.push(row@));
        }
        i += 1;
    }
    proof {
        assert(all.take(i as int) =~= all);
    }
    (successes, failures)
}

} // verus!
