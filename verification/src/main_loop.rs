//! The state of the main loop and its turns.
//!
//! A turn starts with an event, [`MainLoop::on_event`], which gives the step to perform. Where the
//! step adds or removes the text of a document, the file that it concerns is reported with
//! [`MainLoop::overlay_added`] or [`MainLoop::overlay_removed`]. The turn ends with
//! [`MainLoop::end_turn`].

use vstd::prelude::*;

use crate::errors::{LoopError, LoopErrorView, Rejection, RejectionView};
use crate::events::{Event, EventView};
use crate::libraries::LibraryQueue;
use crate::message::{MessageView, RawMessage};
use crate::notices::{
    on_notification, read_notification, DocumentStep, DocumentStepView, NoticeStep, NoticeStepView,
};
use crate::protocol::MessageType;
use crate::requests::{
    is_handled, on_client_request, read_request, ClientRequest, ClientRequestView, RequestStep,
    RequestStepView,
};
use crate::sets::{FileId, PendingRequests, Subscriptions};
use crate::tasks::{on_task, Task, TaskView};
use crate::updates::{file_jobs, FileJob, Published};
use crate::user_messages::workspace_loaded;

verus! {

/// What the client chose when it started the server.
#[derive(Debug, Clone, Copy, PartialEq, Eq, Structural)]
pub struct InitializationOptions {
    /// Tell the highlighting of the open files.
    pub publish_decorations: bool,
    /// Tell the user when the workspace is loaded.
    pub show_workspace_loaded: bool,
}

/// The state of the loop. `L` is a library that waits to be indexed.
pub struct MainLoop<L> {
    options: InitializationOptions,
    pending_requests: PendingRequests,
    subs: Subscriptions,
    libraries: LibraryQueue<L>,
    send_workspace_notification: bool,
}

/// The content of a [`MainLoop`].
pub struct LoopView<L> {
    pub options: InitializationOptions,
    /// The requests that workers have in hand and nobody has answered.
    pub pending: Set<u64>,
    /// The files that the client has open.
    pub subs: Set<u32>,
    /// The number of libraries that are being indexed.
    pub in_flight: nat,
    /// The libraries that wait to be indexed.
    pub waiting: Seq<L>,
    /// The end of the workspace's loading has not been noted yet.
    pub loading: bool,
}

impl<L> LoopView<L> {
    /// Three workers at least stay ready to react to input.
    pub open spec fn wf(self) -> bool {
        self.in_flight <= crate::libraries::MAX_IN_FLIGHT
    }
}

/// What an event leads to.
#[derive(Debug, PartialEq, Eq)]
pub enum Step<V, D> {
    Nothing,
    /// Write to the log that nobody handles the message.
    Unhandled(RawMessage),
    /// Send the message.
    Send(RawMessage),
    /// Answer or hand on a request.
    Request(RequestStep),
    /// Change the text of a document.
    Document(DocumentStep),
    /// Let the virtual file system take the change in.
    HandleVfs(V),
    /// Add the indexed library.
    AddLib(D),
}

/// The content of a [`Step`].
pub enum StepView<V, D> {
    Nothing,
    Unhandled(MessageView),
    Send(MessageView),
    Request(RequestStepView),
    Document(DocumentStepView),
    HandleVfs(V),
    AddLib(D),
}

impl<V, D> View for Step<V, D> {
    type V = StepView<V, D>;

    open spec fn view(&self) -> StepView<V, D> {
        match self {
            Step::Nothing => StepView::Nothing,
            Step::Unhandled(message) => StepView::Unhandled(message@),
            Step::Send(message) => StepView::Send(message@),
            Step::Request(step) => StepView::Request(step@),
            Step::Document(step) => StepView::Document(step@),
            Step::HandleVfs(change) => StepView::HandleVfs(*change),
            Step::AddLib(library) => StepView::AddLib(*library),
        }
    }
}

/// The first half of a turn: the step, and whether the files may have changed by the end of it.
#[derive(Debug, PartialEq, Eq)]
pub struct Turn<V, D> {
    pub step: Step<V, D>,
    pub state_changed: bool,
}

/// The content of a [`Turn`].
pub struct TurnView<V, D> {
    pub step: StepView<V, D>,
    pub state_changed: bool,
}

impl<V, D> View for Turn<V, D> {
    type V = TurnView<V, D>;

    open spec fn view(&self) -> TurnView<V, D> {
        TurnView { step: self.step@, state_changed: self.state_changed }
    }
}

/// Why the loop ends.
#[derive(Debug, PartialEq, Eq)]
pub enum TurnError {
    /// With an error to report.
    Failed(LoopError),
    /// With a panic: the event should not have been possible.
    Rejected(Rejection),
}

/// The content of a [`TurnError`].
pub enum TurnErrorView {
    Failed(LoopErrorView),
    Rejected(RejectionView),
}

impl View for TurnError {
    type V = TurnErrorView;

    open spec fn view(&self) -> TurnErrorView {
        match self {
            TurnError::Failed(error) => TurnErrorView::Failed(error@),
            TurnError::Rejected(rejection) => TurnErrorView::Rejected(rejection@),
        }
    }
}

/// The content of a turn or of the error in its place.
pub open spec fn turn_view<V, D>(res: Result<Turn<V, D>, TurnError>) -> Result<
    TurnView<V, D>,
    TurnErrorView,
> {
    match res {
        Ok(turn) => Ok(turn@),
        Err(error) => Err(error@),
    }
}

/// The turn that a worker's message makes.
pub open spec fn task_turn<V, D>(pending: Set<u64>, task: TaskView) -> TurnView<V, D> {
    TurnView {
        step: match crate::tasks::sent_for_task(pending, task) {
            Some(message) => StepView::Send(message),
            None => StepView::Nothing,
        },
        state_changed: false,
    }
}

/// A request is one that the loop can take in this state: it does not bear the id of a pending
/// request where a worker would have to answer it.
pub open spec fn is_fresh(pending: Set<u64>, request: ClientRequestView) -> bool {
    !(request.is_for_worker() && pending.contains(request.id()))
}

/// The turn that a request makes.
pub open spec fn request_turn<V, D>(
    pending: Set<u64>,
    req: crate::message::RequestView,
) -> Result<TurnView<V, D>, TurnErrorView> {
    match crate::requests::client_request_of(req) {
        Ok(request) => if is_fresh(pending, request) {
            Ok(
                TurnView {
                    step: StepView::Request(crate::requests::step_for_request(request)),
                    state_changed: false,
                },
            )
        } else {
            Err(TurnErrorView::Rejected(RejectionView::DuplicateRequest(request.id())))
        },
        Err(rejection) => Err(TurnErrorView::Rejected(rejection)),
    }
}

/// The turn that a notification makes.
pub open spec fn notice_turn<V, D>(
    pending: Set<u64>,
    not: crate::message::NotificationView,
) -> Result<TurnView<V, D>, TurnErrorView> {
    match crate::notices::notice_of(not) {
        Ok(notice) => match crate::notices::step_for_notice(pending, notice) {
            Ok(step) => Ok(
                TurnView {
                    step: match step {
                        NoticeStepView::Nothing => StepView::Nothing,
                        NoticeStepView::Send(message) => StepView::Send(message),
                        NoticeStepView::Document(step) => StepView::Document(step),
                        NoticeStepView::Unhandled(not) => StepView::Unhandled(
                            MessageView::Notification(not),
                        ),
                    },
                    state_changed: true,
                },
            ),
            Err(error) => Err(TurnErrorView::Failed(error)),
        },
        Err(rejection) => Err(TurnErrorView::Rejected(rejection)),
    }
}

/// The turn that an event makes in a state, or the error that ends the loop.
pub open spec fn turn_for<L, V, D>(state: LoopView<L>, event: EventView<V, D>) -> Result<
    TurnView<V, D>,
    TurnErrorView,
> {
    match event {
        EventView::Task(task) => Ok(task_turn(state.pending, task)),
        EventView::Vfs(change) => Ok(
            TurnView { step: StepView::HandleVfs(change), state_changed: true },
        ),
        EventView::Lib(library) => if state.in_flight > 0 {
            Ok(TurnView { step: StepView::AddLib(library), state_changed: false })
        } else {
            Err(TurnErrorView::Rejected(RejectionView::UnexpectedLibrary))
        },
        EventView::Msg(MessageView::Request(req)) => request_turn(state.pending, req),
        EventView::Msg(MessageView::Notification(not)) => notice_turn(state.pending, not),
        EventView::Msg(MessageView::Response(response)) => Ok(
            TurnView {
                step: StepView::Unhandled(MessageView::Response(response)),
                state_changed: false,
            },
        ),
    }
}

/// The requests that are pending after an event.
pub open spec fn pending_after_event<V, D>(
    pending: Set<u64>,
    event: EventView<V, D>,
) -> Set<u64> {
    match event {
        EventView::Task(task) => crate::tasks::pending_after_task(pending, task),
        EventView::Msg(MessageView::Request(req)) => match crate::requests::client_request_of(
            req,
        ) {
            Ok(request) => crate::requests::pending_after_request(pending, request),
            Err(_) => pending,
        },
        EventView::Msg(MessageView::Notification(not)) => match crate::notices::notice_of(not) {
            Ok(notice) => crate::notices::pending_after_notice(pending, notice),
            Err(_) => pending,
        },
        _ => pending,
    }
}

/// The number of libraries that are being indexed after an event.
pub open spec fn in_flight_after_event<V, D>(in_flight: nat, event: EventView<V, D>) -> nat {
    if event is Lib && in_flight > 0 {
        (in_flight - 1) as nat
    } else {
        in_flight
    }
}

/// The state after an event.
pub open spec fn state_after_event<L, V, D>(
    state: LoopView<L>,
    event: EventView<V, D>,
) -> LoopView<L> {
    LoopView {
        pending: pending_after_event(state.pending, event),
        in_flight: in_flight_after_event(state.in_flight, event),
        ..state
    }
}

/// The state in which an event leaves the loop, whether or not it ends it.
pub open spec fn state_on_event<L, V, D>(
    state: LoopView<L>,
    event: EventView<V, D>,
) -> LoopView<L> {
    if turn_for(state, event) is Ok {
        state_after_event(state, event)
    } else {
        state
    }
}

/// The sum of a list of numbers.
pub open spec fn total(counts: Seq<usize>) -> nat
    decreases counts.len(),
{
    if counts.len() == 0 {
        0
    } else {
        total(counts.drop_last()) + counts.last() as nat
    }
}

/// The end of a turn finds the workspace loaded for the first time: nothing is left to scan, and no
/// library waits or is being indexed.
pub open spec fn is_loaded_now<L>(state: LoopView<L>, new: Seq<L>, roots_to_scan: nat) -> bool {
    &&& state.loading
    &&& roots_to_scan == 0
    &&& state.waiting.len() + new.len() == 0
    &&& state.in_flight == 0
}

/// The message to the user at the end of a turn.
pub open spec fn message_at_end<L>(
    state: LoopView<L>,
    new: Seq<L>,
    roots_to_scan: nat,
    packages: nat,
) -> Option<MessageView> {
    if is_loaded_now(state, new, roots_to_scan) && state.options.show_workspace_loaded {
        Some(
            crate::user_messages::shown(
                MessageType::Info,
                crate::user_messages::workspace_loaded_text(packages),
            ),
        )
    } else {
        None
    }
}

/// The libraries to index from the end of a turn on.
pub open spec fn started_at_end<L>(state: LoopView<L>, new: Seq<L>) -> Seq<L> {
    crate::libraries::started_of(state.in_flight, state.waiting + new)
}

/// The state at the end of a turn.
pub open spec fn state_at_end<L>(
    state: LoopView<L>,
    new: Seq<L>,
    roots_to_scan: nat,
) -> LoopView<L> {
    LoopView {
        in_flight: state.in_flight + started_at_end(state, new).len(),
        waiting: crate::libraries::kept_of(state.in_flight, state.waiting + new),
        loading: state.loading && !is_loaded_now(state, new, roots_to_scan),
        ..state
    }
}

/// The list holds every file of the set once, and no other file.
pub open spec fn lists(files: Seq<FileId>, set: Set<u32>) -> bool {
    &&& files.no_duplicates()
    &&& forall|n: u32| #[trigger] set.contains(n) <==> files.contains(FileId(n))
}

/// What is left to do at the end of a turn, in this order.
#[derive(Debug, PartialEq, Eq)]
pub struct TurnEnd<L> {
    /// Have workers index these libraries.
    pub start: Vec<L>,
    /// Send this message.
    pub message: Option<RawMessage>,
    /// Have a worker compute these.
    pub updates: Option<Vec<FileJob>>,
}

/// The sum of a list of numbers.
fn sum(counts: &Vec<usize>) -> (res: usize)
    requires
        total(counts@) <= usize::MAX,
    ensures
        res == total(counts@),
{
    let mut res: usize = 0;
    let mut i: usize = 0;
    while i < counts.len()
        invariant
            i <= counts.len(),
            res == total(counts@.take(i as int)),
            total(counts@) <= usize::MAX,
        decreases counts.len() - i,
    {
        assert(counts@.take(i + 1).drop_last() == counts@.take(i as int));
        proof {
            lemma_total_of_prefix(counts@, i + 1);
        }
        res = res + counts[i];
        i = i + 1;
    }
    assert(counts@.take(i as int) == counts@);
    res
}

proof fn lemma_total_of_prefix(counts: Seq<usize>, n: int)
    requires
        0 <= n <= counts.len(),
    ensures
        total(counts.take(n)) <= total(counts),
    decreases counts.len() - n,
{
    if n < counts.len() {
        lemma_total_of_prefix(counts, n + 1);
        assert(counts.take(n + 1).drop_last() == counts.take(n));
    } else {
        assert(counts.take(n) == counts);
    }
}

/// The state before the first turn.
pub open spec fn initial_state<L>(options: InitializationOptions) -> LoopView<L> {
    LoopView {
        options,
        pending: Set::empty(),
        subs: Set::empty(),
        in_flight: 0,
        waiting: Seq::empty(),
        loading: true,
    }
}

/// The state after the text of a document was laid over a file, if there is one.
pub open spec fn state_after_added<L>(state: LoopView<L>, file: Option<FileId>) -> LoopView<L> {
    match file {
        Some(file) => LoopView { subs: state.subs.insert(file.0), ..state },
        None => state,
    }
}

/// The state after the text of a document was taken off a file, if there is one.
pub open spec fn state_after_removed<L>(state: LoopView<L>, file: Option<FileId>) -> LoopView<L> {
    match file {
        Some(file) => LoopView { subs: state.subs.remove(file.0), ..state },
        None => state,
    }
}

impl<L> View for MainLoop<L> {
    type V = LoopView<L>;

    closed spec fn view(&self) -> LoopView<L> {
        LoopView {
            options: self.options,
            pending: self.pending_requests@,
            subs: self.subs@,
            in_flight: self.libraries.in_flight(),
            waiting: self.libraries.waiting(),
            loading: self.send_workspace_notification,
        }
    }
}

impl<L> MainLoop<L> {
    /// The loop before its first turn.
    pub fn new(options: InitializationOptions) -> (main_loop: MainLoop<L>)
        ensures
            main_loop@.wf(),
            main_loop@ == initial_state::<L>(options),
            main_loop@ == (LoopView {
                options,
                pending: Set::<u64>::empty(),
                subs: Set::<u32>::empty(),
                in_flight: 0,
                waiting: Seq::<L>::empty(),
                loading: true,
            }),
    {
        MainLoop {
            options,
            pending_requests: PendingRequests::new(),
            subs: Subscriptions::new(),
            libraries: LibraryQueue::new(),
            send_workspace_notification: true,
        }
    }

    /// Passes a worker's message on; gives the message for the client, if there is one.
    pub fn on_task(&mut self, task: Task) -> (sent: Option<RawMessage>)
        ensures
            final(self)@ == (LoopView {
                pending: crate::tasks::pending_after_task(old(self)@.pending, task@),
                ..old(self)@
            }),
            crate::tasks::message_view(sent) == crate::tasks::sent_for_task(
                old(self)@.pending,
                task@,
            ),
    {
        on_task(task, &mut self.pending_requests)
    }

    /// Takes a request of the client in.
    fn on_request_message<V, D>(&mut self, req: crate::message::RawRequest) -> (res: Result<
        Turn<V, D>,
        TurnError,
    >)
        ensures
            turn_view(res) == request_turn::<V, D>(old(self)@.pending, req@),
            final(self)@ == if res is Ok {
                state_after_event(old(self)@, EventView::<V, D>::Msg(MessageView::Request(req@)))
            } else {
                old(self)@
            },
    {
        match read_request(req) {
            Ok(ClientRequest::Other(req)) => {
                if self.pending_requests.contains(req.id) && is_handled(&req.method) {
                    return Err(TurnError::Rejected(Rejection::DuplicateRequest(req.id)));
                }
                let step = on_client_request(&mut self.pending_requests, ClientRequest::Other(req));
                Ok(Turn { step: Step::Request(step), state_changed: false })
            },
            Ok(request) => {
                let step = on_client_request(&mut self.pending_requests, request);
                Ok(Turn { step: Step::Request(step), state_changed: false })
            },
            Err(rejection) => Err(TurnError::Rejected(rejection)),
        }
    }

    /// Takes an event in; gives the step to perform, or the reason why the loop ends.
    pub fn on_event<V, D>(&mut self, event: Event<V, D>) -> (res: Result<Turn<V, D>, TurnError>)
        requires
            old(self)@.wf(),
        ensures
            final(self)@.wf(),
            turn_view(res) == turn_for(old(self)@, event@),
            final(self)@ == state_on_event(old(self)@, event@),
            final(self)@ == if turn_for(old(self)@, event@) is Ok {
                state_after_event(old(self)@, event@)
            } else {
                old(self)@
            },
    {
        match event {
            Event::Task(task) => {
                let step = match on_task(task, &mut self.pending_requests) {
                    Some(message) => Step::Send(message),
                    None => Step::Nothing,
                };
                Ok(Turn { step, state_changed: false })
            },
            Event::Vfs(change) => Ok(Turn { step: Step::HandleVfs(change), state_changed: true }),
            Event::Lib(library) => {
                if !self.libraries.is_indexing() {
                    return Err(TurnError::Rejected(Rejection::UnexpectedLibrary));
                }
                self.libraries.finish();
                Ok(Turn { step: Step::AddLib(library), state_changed: false })
            },
            Event::Msg(RawMessage::Request(req)) => self.on_request_message(req),
            Event::Msg(RawMessage::Notification(not)) => {
                match read_notification(not) {
                    Ok(notice) => match on_notification(&mut self.pending_requests, notice) {
                        Ok(step) => {
                            let step = match step {
                                NoticeStep::Nothing => Step::Nothing,
                                NoticeStep::Send(message) => Step::Send(message),
                                NoticeStep::Document(step) => Step::Document(step),
                                NoticeStep::Unhandled(not) => Step::Unhandled(
                                    RawMessage::Notification(not),
                                ),
                            };
                            Ok(Turn { step, state_changed: true })
                        },
                        Err(error) => Err(TurnError::Failed(error)),
                    },
                    Err(rejection) => Err(TurnError::Rejected(rejection)),
                }
            },
            Event::Msg(RawMessage::Response(response)) => Ok(
                Turn {
                    step: Step::Unhandled(RawMessage::Response(response)),
                    state_changed: false,
                },
            ),
        }
    }

    /// Reports the file over which the text of an opened document was laid, if there is one: the
    /// client is kept informed of it.
    pub fn overlay_added(&mut self, file: Option<FileId>)
        ensures
            final(self)@ == state_after_added(old(self)@, file),
            final(self)@ == (LoopView {
                subs: match file {
                    Some(file) => old(self)@.subs.insert(file.0),
                    None => old(self)@.subs,
                },
                ..old(self)@
            }),
    {
        if let Some(file) = file {
            self.subs.add_sub(file);
        }
    }

    /// Reports the file from which the text of a closed document was taken, if there is one: the
    /// client is no longer kept informed of it.
    pub fn overlay_removed(&mut self, file: Option<FileId>)
        ensures
            final(self)@ == state_after_removed(old(self)@, file),
            final(self)@ == (LoopView {
                subs: match file {
                    Some(file) => old(self)@.subs.remove(file.0),
                    None => old(self)@.subs,
                },
                ..old(self)@
            }),
    {
        if let Some(file) = file {
            self.subs.remove_sub(file);
        }
    }

    /// Whether the end of this turn finds the workspace loaded for the first time: only then are the
    /// packages counted.
    pub fn finds_loaded(&self, new: &Vec<L>, roots_to_scan: usize) -> (res: bool)
        ensures
            res == is_loaded_now(self@, new@, roots_to_scan as nat),
            res <==> self@.loading && roots_to_scan == 0 && new@.len() == 0 && self@.waiting.len()
                == 0 && self@.in_flight == 0,
    {
        self.send_workspace_notification && roots_to_scan == 0 && new.len() == 0
            && self.libraries.is_idle()
    }

    /// Ends a turn: starts the index of as many libraries as there are workers for, tells the user
    /// once that the workspace is loaded, and has the open files brought up to date after a change.
    ///
    /// `new` are the libraries that the changes of this turn brought, `roots_to_scan` the source
    /// roots whose files are not known yet, `package_counts` the number of packages of each
    /// workspace.
    pub fn end_turn(
        &mut self,
        new: Vec<L>,
        roots_to_scan: usize,
        package_counts: &Vec<usize>,
        state_changed: bool,
    ) -> (end: TurnEnd<L>)
        requires
            old(self)@.wf(),
            is_loaded_now(old(self)@, new@, roots_to_scan as nat) ==> total(package_counts@)
                <= usize::MAX,
        ensures
            final(self)@.wf(),
            final(self)@ == state_at_end(old(self)@, new@, roots_to_scan as nat),
            end.start@ == started_at_end(old(self)@, new@),
            crate::tasks::message_view(end.message) == message_at_end(
                old(self)@,
                new@,
                roots_to_scan as nat,
                total(package_counts@),
            ),
            match end.updates {
                Some(jobs) => state_changed && exists|files: Seq<FileId>|
                    #![trigger lists(files, old(self)@.subs)]
                    lists(files, old(self)@.subs) && jobs@ == crate::updates::jobs_of_files(
                        files,
                        old(self)@.options.publish_decorations,
                    ),
                None => !state_changed,
            },
            end.updates is Some <==> state_changed,
            end.message is Some ==> roots_to_scan == 0 && final(self)@.waiting.len() == 0
                && final(self)@.in_flight == 0,
            end.updates matches Some(jobs) ==> jobs@.no_duplicates(),
            end.updates matches Some(jobs) ==> forall|job: FileJob| #[trigger]
                jobs@.contains(job) <==> old(self)@.subs.contains(job.file.0) && (job.what
                    == Published::Diagnostics || old(self)@.options.publish_decorations),
    {
        let start = self.libraries.start(new);
        let mut message: Option<RawMessage> = None;
        if self.send_workspace_notification && roots_to_scan == 0 && self.libraries.is_idle() {
            let packages = sum(package_counts);
            if self.options.show_workspace_loaded {
                message = Some(workspace_loaded(packages));
            }
            self.send_workspace_notification = false;
        }
        let mut updates: Option<Vec<FileJob>> = None;
        if state_changed {
            let files = self.subs.subscriptions();
            assert(lists(files@, old(self)@.subs));
            let jobs = file_jobs(&files, self.options.publish_decorations);
            proof {
                let decorations = self.options.publish_decorations;
                crate::updates::law_nothing_is_computed_twice(files@, decorations);
                assert forall|job: FileJob| #[trigger]
                    jobs@.contains(job) <==> old(self)@.subs.contains(job.file.0) && (job.what
                        == Published::Diagnostics || decorations) by {
                    crate::updates::law_every_file_is_updated(files@, decorations, job);
                    assert(FileId(job.file.0) == job.file);
                }
            }
            updates = Some(jobs);
        }
        TurnEnd { start, message, updates }
    }
}

/// The packages are counted over all workspaces: each adds its own number, wherever it stands.
pub proof fn law_every_workspace_counts(before: Seq<usize>, count: usize, after: Seq<usize>)
    ensures
        total(Seq::empty()) == 0,
        total(before.push(count) + after) == total(before) + count + total(after),
    decreases after.len(),
{
    if after.len() == 0 {
        assert(before.push(count) + after == before.push(count));
        assert(before.push(count).drop_last() == before);
    } else {
        law_every_workspace_counts(before, count, after.drop_last());
        assert((before.push(count) + after).drop_last() == before.push(count) + after.drop_last());
    }
}

} // verus!
