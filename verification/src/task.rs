//! The work on one crawl target, from its detail page to its outcome, as a
//! machine: resolve first, then download with retry. The driver fetches,
//! creates and writes; the machine decides.

use crate::crawl::CrawlTarget;
use crate::download::{DownloadAction, DownloadEvent, RetryPolicy, RetryState};
use crate::outcome::DownloadOutcome;
use crate::resolve::{
    detail_page_url, fetched_body, file_name, lemma_file_name_injective, page_url, resolution,
    resolve_page, FetchError, ResolveError, ResolvedResource, ResourceModel,
};
use crate::site::FILE_PREFIX;
use vstd::prelude::*;
use vstd::string::*;

verus! {

/// What the driver of a task is asked to do.
#[derive(Clone, Copy, Debug, PartialEq, Eq, Structural)]
pub enum TaskAction {
    /// Fetch the detail page.
    FetchPage,
    /// Create the destination file.
    OpenFile,
    /// Request the resource at once.
    Fetch,
    /// Rest for so many milliseconds, then request the resource.
    PauseThenFetch { millis: u64 },
    /// Write the body of the response to the destination file.
    SaveBody,
    /// Release the destination file if it is open; the task has ended.
    Finish(DownloadOutcome),
}

/// Where a task stands.
#[derive(Debug)]
enum Progress {
    Resolving,
    Downloading(ResolvedResource, RetryState),
    Unresolved(ResolveError),
}

/// The work on one crawl target.
#[derive(Debug)]
pub struct Task {
    target: CrawlTarget,
    directory: String,
    policy: RetryPolicy,
    progress: Progress,
}

/// Where a task stands, as a mathematical value.
pub enum ProgressModel {
    /// The detail page is being fetched.
    Resolving,
    /// The resource is known and its download is under way or has ended.
    Downloading { resource: ResourceModel, download: RetryState },
    /// The detail page gave no resource.
    Unresolved(ResolveError),
}

/// A task as a mathematical value.
pub struct TaskModel {
    pub target: Seq<char>,
    pub directory: Seq<char>,
    pub policy: RetryPolicy,
    pub progress: ProgressModel,
}

/// What a driver can report to a task.
pub enum TaskEvent {
    /// What the fetch of the detail page brought: its body, or nothing.
    Page(Option<Seq<char>>),
    /// What came of an action of the download.
    Download(DownloadEvent),
}

/// The outcome that stands for a failed resolution.
pub open spec fn outcome_of(error: ResolveError) -> DownloadOutcome {
    match error {
        ResolveError::PageUnreachable => DownloadOutcome::PageUnreachable,
        ResolveError::ResourceNotFound => DownloadOutcome::ResourceNotFound,
    }
}

/// The task's action for an action of its download.
pub open spec fn lift(action: DownloadAction) -> TaskAction {
    match action {
        DownloadAction::OpenFile => TaskAction::OpenFile,
        DownloadAction::Fetch => TaskAction::Fetch,
        DownloadAction::PauseThenFetch { millis } => TaskAction::PauseThenFetch { millis },
        DownloadAction::SaveBody => TaskAction::SaveBody,
        DownloadAction::Finish(outcome) => TaskAction::Finish(outcome),
    }
}

/// The path of the destination file: the directory, a slash, the file name.
pub open spec fn destination_path(directory: Seq<char>, file_name: Seq<char>) -> Seq<char> {
    directory + seq!['/'] + file_name
}

impl TaskModel {
    /// A task that has not begun: it waits for its detail page.
    pub open spec fn start(target: Seq<char>, directory: Seq<char>, policy: RetryPolicy) -> TaskModel {
        TaskModel { target, directory, policy, progress: ProgressModel::Resolving }
    }

    /// The action whose result the task waits for.
    pub open spec fn pending(self) -> TaskAction {
        match self.progress {
            ProgressModel::Resolving => TaskAction::FetchPage,
            ProgressModel::Downloading { download, .. } => lift(download.pending()),
            ProgressModel::Unresolved(error) => TaskAction::Finish(outcome_of(error)),
        }
    }

    /// The task after its detail page has been resolved: with a resource
    /// its download begins, without one the task has ended. A task that
    /// does not wait for its page stays as it is.
    pub open spec fn resolved(self, resolution: Result<ResourceModel, ResolveError>) -> TaskModel {
        match (self.progress, resolution) {
            (ProgressModel::Resolving, Ok(resource)) => TaskModel {
                progress: ProgressModel::Downloading {
                    resource,
                    download: RetryState::start(self.policy),
                },
                ..self
            },
            (ProgressModel::Resolving, Err(error)) => TaskModel {
                progress: ProgressModel::Unresolved(error),
                ..self
            },
            _ => self,
        }
    }

    /// The task after an event. A page is taken in only while the task waits
    /// for one, a report of the download only while there is a download;
    /// any other event changes nothing.
    pub open spec fn next(self, event: TaskEvent) -> TaskModel {
        match (self.progress, event) {
            (ProgressModel::Resolving, TaskEvent::Page(page)) => self.resolved(
                resolution(self.target, page),
            ),
            (ProgressModel::Downloading { resource, download }, TaskEvent::Download(report)) => TaskModel {
                progress: ProgressModel::Downloading { resource, download: download.next(report) },
                ..self
            },
            _ => self,
        }
    }

    /// The task after a run of events, oldest first.
    pub open spec fn after(self, events: Seq<TaskEvent>) -> TaskModel
        decreases events.len(),
    {
        if events.len() == 0 {
            self
        } else {
            self.after(events.drop_last()).next(events.last())
        }
    }

    /// The outcome, once the task has ended.
    pub open spec fn outcome(self) -> Option<DownloadOutcome> {
        match self.progress {
            ProgressModel::Resolving => None,
            ProgressModel::Downloading { download, .. } => download.outcome_spec(),
            ProgressModel::Unresolved(error) => Some(outcome_of(error)),
        }
    }

    /// The resource, once the detail page has given one.
    pub open spec fn resource(self) -> Option<ResourceModel> {
        match self.progress {
            ProgressModel::Downloading { resource, .. } => Some(resource),
            _ => None,
        }
    }
}

impl View for Task {
    type V = TaskModel;

    closed spec fn view(&self) -> TaskModel {
        TaskModel {
            target: self.target@,
            directory: self.directory@,
            policy: self.policy,
            progress: match self.progress {
                Progress::Resolving => ProgressModel::Resolving,
                Progress::Downloading(resource, download) => ProgressModel::Downloading {
                    resource: resource@,
                    download,
                },
                Progress::Unresolved(error) => ProgressModel::Unresolved(error),
            },
        }
    }
}

impl ResolveError {
    /// The outcome that stands for this failure.
    pub fn outcome(&self) -> (outcome: DownloadOutcome)
        ensures
            outcome == outcome_of(*self),
    {
        match self {
            ResolveError::PageUnreachable => DownloadOutcome::PageUnreachable,
            ResolveError::ResourceNotFound => DownloadOutcome::ResourceNotFound,
        }
    }
}

impl TaskAction {
    /// The task's action for an action of its download.
    pub fn from_download(action: DownloadAction) -> (lifted: TaskAction)
        ensures
            lifted == lift(action),
    {
        match action {
            DownloadAction::OpenFile => TaskAction::OpenFile,
            DownloadAction::Fetch => TaskAction::Fetch,
            DownloadAction::PauseThenFetch { millis } => TaskAction::PauseThenFetch { millis },
            DownloadAction::SaveBody => TaskAction::SaveBody,
            DownloadAction::Finish(outcome) => TaskAction::Finish(outcome),
        }
    }
}

impl Task {
    /// The task for `target`, with files going to `directory`.
    pub fn begin(target: CrawlTarget, directory: &str, policy: RetryPolicy) -> (task: Task)
        ensures
            task@ == TaskModel::start(target@, directory@, policy),
    {
        Task { target, directory: String::from_str(directory), policy, progress: Progress::Resolving }
    }

    /// The action whose result the task waits for.
    pub fn pending_action(&self) -> (action: TaskAction)
        ensures
            action == self@.pending(),
    {
        match &self.progress {
            Progress::Resolving => TaskAction::FetchPage,
            Progress::Downloading(_, download) => TaskAction::from_download(download.pending_action()),
            Progress::Unresolved(error) => TaskAction::Finish(error.outcome()),
        }
    }

    /// The URL of the detail page: what `FetchPage` asks to fetch.
    pub fn page_address(&self) -> (url: String)
        ensures
            url@ == page_url(self@.target),
    {
        detail_page_url(self.target.path())
    }

    /// The URL of the resource, once the detail page has given one: what
    /// `Fetch` and `PauseThenFetch` ask to request.
    pub fn resource_address(&self) -> (url: Option<String>)
        ensures
            match self@.resource() {
                Some(resource) => url matches Some(text) && text@ == resource.url,
                None => url is None,
            },
    {
        match &self.progress {
            Progress::Downloading(resource, _) => Some(resource.url.clone()),
            _ => None,
        }
    }

    /// The path of the destination file, once the detail page has given a
    /// resource: what `OpenFile` asks to create.
    pub fn destination(&self) -> (path: Option<String>)
        ensures
            match self@.resource() {
                Some(resource) => path matches Some(text) && text@ == destination_path(
                    self@.directory,
                    resource.file_name,
                ),
                None => path is None,
            },
    {
        match &self.progress {
            Progress::Downloading(resource, _) => {
                let mut path = self.directory.clone();
                path.append("/");
                path.append(resource.file_name.as_str());
                proof {
                    reveal_strlit("/");
                    assert("/"@ =~= seq!['/']);
                }
                Some(path)
            },
            _ => None,
        }
    }

    /// The outcome, once the task has ended.
    pub fn outcome(&self) -> (outcome: Option<DownloadOutcome>)
        ensures
            outcome == self@.outcome(),
    {
        match &self.progress {
            Progress::Resolving => None,
            Progress::Downloading(_, download) => download.outcome(),
            Progress::Unresolved(error) => Some(error.outcome()),
        }
    }

    /// Takes in how the resolution of the detail page ended and says what
    /// to do next: begin the download where there is a resource, end the
    /// task where there is none.
    pub fn resolved(self, resolution: Result<ResolvedResource, ResolveError>) -> (next: (
        Task,
        TaskAction,
    ))
        ensures
            next.0@ == self@.resolved(
                match resolution {
                    Ok(resource) => Ok(resource@),
                    Err(error) => Err(error),
                },
            ),
            next.1 == next.0@.pending(),
    {
        let Task { target, directory, policy, progress } = self;
        let progress = match progress {
            Progress::Resolving => match resolution {
                Ok(resource) => Progress::Downloading(resource, RetryState::begin(policy)),
                Err(error) => Progress::Unresolved(error),
            },
            other => other,
        };
        let task = Task { target, directory, policy, progress };
        let action = task.pending_action();
        (task, action)
    }

    /// Takes in what the fetch of the detail page brought and says what to
    /// do next: resolves the page, then goes on as `resolved` says.
    pub fn page_arrived(self, page: Result<String, FetchError>) -> (next: (Task, TaskAction))
        ensures
            next.0@ == self@.next(TaskEvent::Page(fetched_body(page))),
            next.1 == next.0@.pending(),
    {
        if self.awaits_page() {
            let resolution = resolve_page(self.target.path(), page);
            self.resolved(resolution)
        } else {
            let action = self.pending_action();
            (self, action)
        }
    }

    /// Whether the task waits for its detail page.
    fn awaits_page(&self) -> (waiting: bool)
        ensures
            waiting == (self@.progress is Resolving),
    {
        match &self.progress {
            Progress::Resolving => true,
            _ => false,
        }
    }

    /// Takes in what came of an action of the download and says what to do
    /// next.
    pub fn download_reported(self, report: DownloadEvent) -> (next: (Task, TaskAction))
        ensures
            next.0@ == self@.next(TaskEvent::Download(report)),
            next.1 == next.0@.pending(),
    {
        let Task { target, directory, policy, progress } = self;
        let progress = match progress {
            Progress::Downloading(resource, download) => {
                let mut download = download;
                let _ = download.step(report);
                Progress::Downloading(resource, download)
            },
            other => other,
        };
        let task = Task { target, directory, policy, progress };
        let action = task.pending_action();
        (task, action)
    }
}

/// A task that has its outcome stays as it is whatever is reported to it:
/// the outcome of a target is set once and nothing is asked for after it.
pub proof fn lemma_ended_task_is_final(task: TaskModel, events: Seq<TaskEvent>)
    requires
        task.outcome() is Some,
    ensures
        task.after(events) == task,
        task.pending() == TaskAction::Finish(task.outcome()->Some_0),
    decreases events.len(),
{
    if events.len() > 0 {
        lemma_ended_task_is_final(task, events.drop_last());
    }
}

/// A task keeps the resource that its detail page gave: a target has at
/// most one resource.
pub proof fn lemma_resource_is_kept(task: TaskModel, events: Seq<TaskEvent>)
    requires
        task.resource() is Some,
    ensures
        task.after(events).resource() == task.resource(),
    decreases events.len(),
{
    if events.len() > 0 {
        lemma_resource_is_kept(task, events.drop_last());
    }
}

/// Once the detail page has given a resource, the task goes where its
/// download goes: what holds of a download under a run of reports holds of
/// the task under the same reports.
pub proof fn lemma_task_follows_download(task: TaskModel, reports: Seq<DownloadEvent>)
    requires
        task.progress is Downloading,
    ensures
        task.after(reports.map_values(|report: DownloadEvent| TaskEvent::Download(report)))
            == (TaskModel {
            progress: ProgressModel::Downloading {
                resource: task.progress->resource,
                download: task.progress->download.after(reports),
            },
            ..task
        }),
    decreases reports.len(),
{
    let events = reports.map_values(|report: DownloadEvent| TaskEvent::Download(report));
    if reports.len() > 0 {
        assert(events.drop_last() =~= reports.drop_last().map_values(
            |report: DownloadEvent| TaskEvent::Download(report),
        ));
        lemma_task_follows_download(task, reports.drop_last());
    }
}

/// A detail page without a resource link ends its task as
/// `ResourceNotFound`, and an unreachable one as `PageUnreachable`; either
/// way the task never asks for a file to be created, whatever is reported to
/// it afterwards.
pub proof fn lemma_unresolved_creates_no_file(
    task: TaskModel,
    page: Option<Seq<char>>,
    later: Seq<TaskEvent>,
)
    requires
        task.progress is Resolving,
        resolution(task.target, page) is Err,
    ensures
        ({
            let ended = task.next(TaskEvent::Page(page));
            let error = resolution(task.target, page)->Err_0;
            &&& ended.outcome() == Some(outcome_of(error))
            &&& ended.resource() is None
            &&& ended.after(later) == ended
            &&& ended.after(later).pending() == TaskAction::Finish(outcome_of(error))
        }),
{
    lemma_ended_task_is_final(task.next(TaskEvent::Page(page)), later);
}

/// Under one directory, two file names that differ give two destination
/// paths that differ.
pub proof fn lemma_destination_injective(directory: Seq<char>, a: Seq<char>, b: Seq<char>)
    requires
        destination_path(directory, a) == destination_path(directory, b),
    ensures
        a == b,
{
    let n = directory.len() as int + 1;
    assert(a =~= destination_path(directory, a).skip(n));
    assert(b =~= destination_path(directory, b).skip(n));
}

/// Distinct targets that all carry the namespace prefix write to distinct
/// files: under one directory no two of them share a destination path.
pub proof fn lemma_destinations_distinct(directory: Seq<char>, targets: Seq<Seq<char>>)
    requires
        targets.no_duplicates(),
        forall|i: int| 0 <= i < targets.len() ==> FILE_PREFIX@.is_prefix_of(#[trigger] targets[i]),
    ensures
        targets.map_values(|target: Seq<char>| destination_path(directory, file_name(target)))
            .no_duplicates(),
{
    let destinations = targets.map_values(
        |target: Seq<char>| destination_path(directory, file_name(target)),
    );
    assert forall|i: int, j: int|
        0 <= i < destinations.len() && 0 <= j < destinations.len() && i != j implies destinations[i]
        != destinations[j] by {
        if destinations[i] == destinations[j] {
            lemma_destination_injective(directory, file_name(targets[i]), file_name(targets[j]));
            lemma_file_name_injective(targets[i], targets[j]);
        }
    }
}

} // verus!
