//! The diagnostics and decorations of the open files, which a worker computes after a change.

use vstd::prelude::*;

use crate::message::{NotificationView, RawNotification};
use crate::methods::{PUBLISH_DECORATIONS, PUBLISH_DIAGNOSTICS};
use crate::sets::FileId;
use crate::tasks::{Task, TaskView};

verus! {

/// What is told of a file.
#[derive(Debug, Clone, Copy, PartialEq, Eq, Structural)]
pub enum Published {
    Diagnostics,
    Decorations,
}

impl Published {
    /// The method of the notification that tells it.
    pub open spec fn method_name(self) -> Seq<char> {
        match self {
            Published::Diagnostics => PUBLISH_DIAGNOSTICS@,
            Published::Decorations => PUBLISH_DECORATIONS@,
        }
    }

    /// The method of the notification that tells it.
    pub fn method(self) -> (method: &'static str)
        ensures
            method@ == self.method_name(),
    {
        match self {
            Published::Diagnostics => PUBLISH_DIAGNOSTICS,
            Published::Decorations => PUBLISH_DECORATIONS,
        }
    }
}

/// One computation of a worker.
#[derive(Debug, Clone, Copy, PartialEq, Eq, Structural)]
pub struct FileJob {
    pub file: FileId,
    pub what: Published,
}

/// What is computed for one file: its diagnostics, and then its decorations where they are wanted.
pub open spec fn jobs_of_file(file: FileId, publish_decorations: bool) -> Seq<FileJob> {
    let diagnostics = FileJob { file, what: Published::Diagnostics };
    if publish_decorations {
        seq![diagnostics, FileJob { file, what: Published::Decorations }]
    } else {
        seq![diagnostics]
    }
}

/// What is computed for a list of files, file by file.
pub open spec fn jobs_of_files(files: Seq<FileId>, publish_decorations: bool) -> Seq<FileJob>
    decreases files.len(),
{
    if files.len() == 0 {
        Seq::empty()
    } else {
        jobs_of_files(files.drop_last(), publish_decorations) + jobs_of_file(
            files.last(),
            publish_decorations,
        )
    }
}

/// The computations for a list of files, in the order in which they are made.
pub fn file_jobs(files: &Vec<FileId>, publish_decorations: bool) -> (jobs: Vec<FileJob>)
    ensures
        jobs@ == jobs_of_files(files@, publish_decorations),
{
    let mut jobs: Vec<FileJob> = Vec::new();
    let mut i: usize = 0;
    while i < files.len()
        invariant
            i <= files.len(),
            jobs@ == jobs_of_files(files@.take(i as int), publish_decorations),
        decreases files.len() - i,
    {
        let file = files[i];
        jobs.push(FileJob { file, what: Published::Diagnostics });
        if publish_decorations {
            jobs.push(FileJob { file, what: Published::Decorations });
        }
        assert(files@.take(i + 1).drop_last() == files@.take(i as int));
        assert(jobs@ == jobs_of_files(files@.take(i as int), publish_decorations) + jobs_of_file(
            file,
            publish_decorations,
        ));
        i = i + 1;
    }
    assert(files@.take(i as int) == files@);
    jobs
}

/// Why a computation gave no result.
#[derive(Debug, Clone, Copy, PartialEq, Eq, Structural)]
pub enum UpdateError {
    /// What it works on has changed.
    Canceled,
    Failed,
}

/// What a worker does with the result of a computation.
#[derive(Debug, PartialEq, Eq)]
pub enum Report {
    Notify(Task),
    /// Write the failure to the log.
    Log,
    Nothing,
}

/// The content of a [`Report`].
pub enum ReportView {
    Notify(TaskView),
    Log,
    Nothing,
}

impl View for Report {
    type V = ReportView;

    open spec fn view(&self) -> ReportView {
        match self {
            Report::Notify(task) => ReportView::Notify(task@),
            Report::Log => ReportView::Log,
            Report::Nothing => ReportView::Nothing,
        }
    }
}

/// What a worker does with the result of a computation, which is the notification's parameters.
pub open spec fn report_of(what: Published, outcome: Result<String, UpdateError>) -> ReportView {
    match outcome {
        Ok(params) => ReportView::Notify(
            TaskView::Notify(NotificationView { method: what.method_name(), params: params@ }),
        ),
        Err(UpdateError::Canceled) => ReportView::Nothing,
        Err(UpdateError::Failed) => ReportView::Log,
    }
}

/// What a worker does with the result of a computation; the result is the notification's parameters
/// as JSON text.
pub fn report(what: Published, outcome: Result<String, UpdateError>) -> (report: Report)
    ensures
        report@ == report_of(what, outcome),
        outcome matches Ok(params) ==> (report matches Report::Notify(Task::Notify(notification))
            && notification.method@ == what.method_name() && notification.params@ == params@),
        outcome == Err::<String, UpdateError>(UpdateError::Canceled) ==> report == Report::Nothing,
        outcome == Err::<String, UpdateError>(UpdateError::Failed) ==> report == Report::Log,
{
    match outcome {
        Ok(params) => Report::Notify(Task::Notify(RawNotification::new(what.method(), params))),
        Err(UpdateError::Canceled) => Report::Nothing,
        Err(UpdateError::Failed) => Report::Log,
    }
}

/// Every file of the list has its diagnostics computed, its decorations if and only if they are
/// wanted, and no other file has anything computed.
pub proof fn law_every_file_is_updated(files: Seq<FileId>, publish_decorations: bool, job: FileJob)
    ensures
        jobs_of_files(files, publish_decorations).contains(job) <==> files.contains(job.file) && (
        job.what == Published::Diagnostics || publish_decorations),
    decreases files.len(),
{
    if files.len() > 0 {
        let before = jobs_of_files(files.drop_last(), publish_decorations);
        let own = jobs_of_file(files.last(), publish_decorations);
        law_every_file_is_updated(files.drop_last(), publish_decorations, job);
        vstd::seq_lib::lemma_seq_concat_contains_all_elements(before, own, job);
        assert(own.contains(job) <==> job.file == files.last() && (job.what
            == Published::Diagnostics || publish_decorations)) by {
            assert(own[0] == FileJob { file: files.last(), what: Published::Diagnostics });
            if publish_decorations {
                assert(own[1] == FileJob { file: files.last(), what: Published::Decorations });
            }
        }
        assert(files.contains(job.file) <==> files.drop_last().contains(job.file) || job.file
            == files.last()) by {
            assert(files == files.drop_last() + seq![files.last()]);
            vstd::seq_lib::lemma_seq_concat_contains_all_elements(
                files.drop_last(),
                seq![files.last()],
                job.file,
            );
            assert(seq![files.last()][0] == files.last());
        }
    }
}

/// Every result is told to the client under the method of what was computed, as it was computed; a
/// failure is told to nobody, and goes to the log unless the computation was cut short.
pub proof fn law_every_result_is_told(what: Published, outcome: Result<String, UpdateError>)
    ensures
        outcome matches Ok(params) ==> (report_of(what, outcome) matches ReportView::Notify(
            TaskView::Notify(notification),
        ) && notification.params == params@ && notification.method == if what
            == Published::Diagnostics {
            "textDocument/publishDiagnostics"@
        } else {
            "rust-analyzer/publishDecorations"@
        }),
        report_of(what, outcome) is Notify <==> outcome is Ok,
        report_of(what, outcome) is Log <==> outcome == Err::<String, UpdateError>(
            UpdateError::Failed,
        ),
{
}

/// The computations go file by file in the order of the list, for each file its diagnostics and right
/// after them its decorations, where they are wanted.
pub proof fn law_files_are_updated_in_order(files: Seq<FileId>, i: int)
    requires
        0 <= i < files.len(),
    ensures
        jobs_of_files(files, false).len() == files.len(),
        jobs_of_files(files, false)[i] == (FileJob {
            file: files[i],
            what: Published::Diagnostics,
        }),
        jobs_of_files(files, true).len() == 2 * files.len(),
        jobs_of_files(files, true)[2 * i] == (FileJob {
            file: files[i],
            what: Published::Diagnostics,
        }),
        jobs_of_files(files, true)[2 * i + 1] == (FileJob {
            file: files[i],
            what: Published::Decorations,
        }),
    decreases files.len(),
{
    let before = files.drop_last();
    if before.len() == 0 {
        assert(jobs_of_files(before, false).len() == 0);
        assert(jobs_of_files(before, true).len() == 0);
    } else {
        law_files_are_updated_in_order(before, if i < before.len() { i } else { 0 });
    }
}

/// No file has the same thing computed twice.
pub proof fn law_nothing_is_computed_twice(files: Seq<FileId>, publish_decorations: bool)
    requires
        files.no_duplicates(),
    ensures
        jobs_of_files(files, publish_decorations).no_duplicates(),
    decreases files.len(),
{
    if files.len() > 0 {
        let before = jobs_of_files(files.drop_last(), publish_decorations);
        let own = jobs_of_file(files.last(), publish_decorations);
        law_nothing_is_computed_twice(files.drop_last(), publish_decorations);
        assert forall|i: int, j: int| 0 <= i < before.len() && 0 <= j < own.len() implies before[i]
            != own[j] by {
            law_every_file_is_updated(files.drop_last(), publish_decorations, before[i]);
            assert(before.contains(before[i]));
        }
        assert((before + own).no_duplicates());
    }
}

} // verus!
