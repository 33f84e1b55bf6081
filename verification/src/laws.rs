//! What holds of the main loop as a whole: laws on whole turns and on every series of turns.

use vstd::prelude::*;

use crate::events::EventView;
use crate::libraries::{MAX_IN_FLIGHT, THREADPOOL_SIZE};
use crate::main_loop::{LoopView, StepView, TurnErrorView};
use crate::message::{MessageView, NotificationView, ResponseView};
use crate::notices::{DocumentStepView, NoticeView};
use crate::requests::RequestStepView;
use crate::sets::FileId;
use crate::tasks::TaskView;

verus! {

/// What comes into a turn from outside: the event, the file that a change of a document concerns,
/// the libraries that the turn's changes bring, the number of source roots yet to scan and the
/// number of packages.
pub struct TurnInput<L, V, D> {
    pub event: EventView<V, D>,
    pub file: Option<FileId>,
    pub new: Seq<L>,
    pub roots_to_scan: nat,
    pub packages: nat,
}

/// The state after the file that a step concerns has been reported.
pub open spec fn state_after_step<L, V, D>(
    state: LoopView<L>,
    step: StepView<V, D>,
    file: Option<FileId>,
) -> LoopView<L> {
    match step {
        StepView::Document(DocumentStepView::Add { .. }) => crate::main_loop::state_after_added(
            state,
            file,
        ),
        StepView::Document(DocumentStepView::Remove { .. }) =>
            crate::main_loop::state_after_removed(state, file),
        _ => state,
    }
}

/// The turn neither fails nor leaves the loop.
pub open spec fn reaches_end<L, V, D>(state: LoopView<L>, input: TurnInput<L, V, D>) -> bool {
    crate::main_loop::turn_for(state, input.event) matches Ok(turn) && !(
    turn.step matches StepView::Request(RequestStepView::Exit(_)))
}

/// The state in which the end of the turn finds the loop, in a turn that gets there.
pub open spec fn state_before_end<L, V, D>(
    state: LoopView<L>,
    input: TurnInput<L, V, D>,
) -> LoopView<L> {
    state_after_step(
        crate::main_loop::state_after_event(state, input.event),
        crate::main_loop::turn_for(state, input.event)->Ok_0.step,
        input.file,
    )
}

/// The state after a turn.
pub open spec fn state_after_turn<L, V, D>(
    state: LoopView<L>,
    input: TurnInput<L, V, D>,
) -> LoopView<L> {
    if reaches_end(state, input) {
        crate::main_loop::state_at_end(
            state_before_end(state, input),
            input.new,
            input.roots_to_scan,
        )
    } else {
        crate::main_loop::state_on_event(state, input.event)
    }
}

/// The state after a series of turns.
pub open spec fn run<L, V, D>(state: LoopView<L>, turns: Seq<TurnInput<L, V, D>>) -> LoopView<L>
    decreases turns.len(),
{
    if turns.len() == 0 {
        state
    } else {
        state_after_turn(run(state, turns.drop_last()), turns.last())
    }
}

/// The loop rejects none of the events.
pub open spec fn accepts<L, V, D>(state: LoopView<L>, turns: Seq<TurnInput<L, V, D>>) -> bool
    decreases turns.len(),
{
    turns.len() == 0 || {
        &&& accepts(state, turns.drop_last())
        &&& !(crate::main_loop::turn_for(
            run(state, turns.drop_last()),
            turns.last().event,
        ) matches Err(TurnErrorView::Rejected(_)))
    }
}

/// The message that a step sends to the client.
pub open spec fn sent_by<V, D>(step: StepView<V, D>) -> Option<MessageView> {
    match step {
        StepView::Send(message) => Some(message),
        StepView::Request(RequestStepView::Exit(message)) => Some(message),
        StepView::Request(RequestStepView::CollectGarbage(message)) => Some(message),
        StepView::Request(RequestStepView::Unknown { response, .. }) => Some(response),
        StepView::Document(DocumentStepView::Remove { cleared, .. }) => Some(cleared),
        _ => None,
    }
}

/// The event is a request with this id.
pub open spec fn asks<V, D>(event: EventView<V, D>, id: u64) -> bool {
    event matches EventView::Msg(MessageView::Request(req)) && req.id == id
}

/// In this state the event makes the loop send a response with this id.
pub open spec fn answers<L, V, D>(state: LoopView<L>, event: EventView<V, D>, id: u64) -> bool {
    crate::main_loop::turn_for(state, event) matches Ok(turn) && sent_by(
        turn.step,
    ) matches Some(MessageView::Response(response)) && response.id == id
}

/// 1 where the condition holds, else 0.
pub open spec fn one_if(condition: bool) -> nat {
    if condition {
        1
    } else {
        0
    }
}

/// The number of requests with this id among the events.
pub open spec fn request_count<L, V, D>(turns: Seq<TurnInput<L, V, D>>, id: u64) -> nat
    decreases turns.len(),
{
    if turns.len() == 0 {
        0
    } else {
        request_count(turns.drop_last(), id) + one_if(asks(turns.last().event, id))
    }
}

/// The number of responses with this id that the loop sends.
pub open spec fn response_count<L, V, D>(
    state: LoopView<L>,
    turns: Seq<TurnInput<L, V, D>>,
    id: u64,
) -> nat
    decreases turns.len(),
{
    if turns.len() == 0 {
        0
    } else {
        response_count(state, turns.drop_last(), id) + one_if(
            answers(run(state, turns.drop_last()), turns.last().event, id),
        )
    }
}

proof fn lemma_pending_after_turn<L, V, D>(state: LoopView<L>, input: TurnInput<L, V, D>)
    ensures
        state_after_turn(state, input).pending == if crate::main_loop::turn_for(
            state,
            input.event,
        ) is Ok {
            crate::main_loop::pending_after_event(state.pending, input.event)
        } else {
            state.pending
        },
{
}

/// One turn: a request is answered at once or becomes pending, a pending request becomes answered.
proof fn lemma_turn_balance<L, V, D>(state: LoopView<L>, input: TurnInput<L, V, D>, id: u64)
    requires
        !(crate::main_loop::turn_for(state, input.event) matches Err(TurnErrorView::Rejected(_))),
    ensures
        one_if(asks(input.event, id)) + one_if(state.pending.contains(id)) == one_if(
            answers(state, input.event, id),
        ) + one_if(state_after_turn(state, input).pending.contains(id)),
{
    lemma_pending_after_turn(state, input);
    match input.event {
        EventView::Msg(MessageView::Request(req)) => {
            let request = crate::requests::client_request_of(req)->Ok_0;
            assert(request.id() == req.id);
        },
        _ => {},
    }
}

/// Every request gets one response. Over any series of turns, the responses with an id are as many
/// as the requests with that id, less the one that is pending at the end, and with the one that was
/// pending at the start.
pub proof fn law_one_response_per_request<L, V, D>(
    state: LoopView<L>,
    turns: Seq<TurnInput<L, V, D>>,
    id: u64,
)
    requires
        accepts(state, turns),
    ensures
        request_count(turns, id) + one_if(state.pending.contains(id)) == response_count(
            state,
            turns,
            id,
        ) + one_if(run(state, turns).pending.contains(id)),
    decreases turns.len(),
{
    if turns.len() > 0 {
        law_one_response_per_request(state, turns.drop_last(), id);
        lemma_turn_balance(run(state, turns.drop_last()), turns.last(), id);
    }
}

/// A series of turns from a state without pending requests to such a state answers each request
/// exactly once.
pub proof fn law_all_answered<L, V, D>(
    state: LoopView<L>,
    turns: Seq<TurnInput<L, V, D>>,
    id: u64,
)
    requires
        accepts(state, turns),
        state.pending == Set::<u64>::empty(),
        run(state, turns).pending == Set::<u64>::empty(),
    ensures
        request_count(turns, id) == response_count(state, turns, id),
{
    law_one_response_per_request(state, turns, id);
}

/// A request that the client cancels while it is pending is answered by the cancellation, and what
/// the worker answers later is dropped.
pub proof fn law_canceled_response_is_dropped(pending: Set<u64>, response: ResponseView)
    ensures
        ({
            let notice = NoticeView::Cancel(response.id);
            let after = crate::notices::pending_after_notice(pending, notice);
            &&& pending.contains(response.id) ==> crate::notices::step_for_notice(pending, notice)
                == Ok::<crate::notices::NoticeStepView, crate::errors::LoopErrorView>(
                crate::notices::NoticeStepView::Send(
                    crate::notices::canceled_response(response.id),
                ),
            )
            &&& crate::tasks::sent_for_task(after, TaskView::Respond(response)) is None
        }),
{
}

/// A cancellation that comes after the response does nothing.
pub proof fn law_late_cancel_does_nothing(pending: Set<u64>, response: ResponseView)
    ensures
        ({
            let notice = NoticeView::Cancel(response.id);
            let after = crate::tasks::pending_after_task(pending, TaskView::Respond(response));
            &&& crate::notices::step_for_notice(after, notice) == Ok::<
                crate::notices::NoticeStepView,
                crate::errors::LoopErrorView,
            >(crate::notices::NoticeStepView::Nothing)
            &&& crate::notices::pending_after_notice(after, notice) == after
        }),
{
}

/// However the turns go, at least three workers of the pool are not busy with an index.
pub proof fn law_workers_stay_free<L, V, D>(state: LoopView<L>, turns: Seq<TurnInput<L, V, D>>)
    requires
        state.wf(),
    ensures
        run(state, turns).wf(),
        THREADPOOL_SIZE - run(state, turns).in_flight >= 3,
    decreases turns.len(),
{
    if turns.len() > 0 {
        law_workers_stay_free(state, turns.drop_last());
    }
}

/// The end of a turn leaves no library waiting while a worker is free for it.
pub proof fn law_no_library_waits_in_vain<L>(
    state: LoopView<L>,
    new: Seq<L>,
    roots_to_scan: nat,
)
    requires
        state.wf(),
    ensures
        ({
            let end = crate::main_loop::state_at_end(state, new, roots_to_scan);
            end.waiting.len() == 0 || end.in_flight == MAX_IN_FLIGHT
        }),
{
}

/// The libraries that a turn brings.
pub open spec fn brought_by<L, V, D>(state: LoopView<L>, input: TurnInput<L, V, D>) -> Seq<L> {
    if reaches_end(state, input) {
        input.new
    } else {
        Seq::empty()
    }
}

/// The libraries whose index a turn starts.
pub open spec fn started_by<L, V, D>(state: LoopView<L>, input: TurnInput<L, V, D>) -> Seq<L> {
    if reaches_end(state, input) {
        crate::main_loop::started_at_end(state_before_end(state, input), input.new)
    } else {
        Seq::empty()
    }
}

/// The libraries that a series of turns brings.
pub open spec fn brought<L, V, D>(state: LoopView<L>, turns: Seq<TurnInput<L, V, D>>) -> Seq<L>
    decreases turns.len(),
{
    if turns.len() == 0 {
        Seq::empty()
    } else {
        brought(state, turns.drop_last()) + brought_by(
            run(state, turns.drop_last()),
            turns.last(),
        )
    }
}

/// The libraries whose index a series of turns starts.
pub open spec fn started<L, V, D>(state: LoopView<L>, turns: Seq<TurnInput<L, V, D>>) -> Seq<L>
    decreases turns.len(),
{
    if turns.len() == 0 {
        Seq::empty()
    } else {
        started(state, turns.drop_last()) + started_by(
            run(state, turns.drop_last()),
            turns.last(),
        )
    }
}

/// The number of events that report an index as done.
pub open spec fn done_count<L, V, D>(turns: Seq<TurnInput<L, V, D>>) -> nat
    decreases turns.len(),
{
    if turns.len() == 0 {
        0
    } else {
        done_count(turns.drop_last()) + one_if(turns.last().event is Lib)
    }
}

/// Starting libraries loses none and makes up none.
proof fn lemma_start_keeps_libraries<L>(in_flight: nat, waiting: Seq<L>)
    ensures
        waiting.to_multiset() == crate::libraries::started_of(in_flight, waiting).to_multiset().add(
            crate::libraries::kept_of(in_flight, waiting).to_multiset(),
        ),
{
    let count = crate::libraries::start_count(in_flight, waiting.len());
    let kept = waiting.take(waiting.len() - count);
    let rest = waiting.skip(waiting.len() - count);
    assert(waiting == kept + rest);
    vstd::seq_lib::lemma_multiset_commutative(kept, rest);
    rest.lemma_reverse_to_multiset();
    assert(waiting.to_multiset() =~= rest.reverse().to_multiset().add(kept.to_multiset()));
}

proof fn lemma_turn_keeps_libraries<L, V, D>(state: LoopView<L>, input: TurnInput<L, V, D>)
    ensures
        (state.waiting + brought_by(state, input)).to_multiset() == started_by(
            state,
            input,
        ).to_multiset().add(state_after_turn(state, input).waiting.to_multiset()),
{
    if reaches_end(state, input) {
        let before = state_before_end(state, input);
        assert(before.waiting == state.waiting);
        lemma_start_keeps_libraries(before.in_flight, state.waiting + input.new);
    } else {
        assert(state.waiting + brought_by(state, input) == state.waiting);
        assert(state_after_turn(state, input).waiting == state.waiting);
        assert(started_by(state, input).to_multiset() =~= vstd::multiset::Multiset::empty()) by {
            broadcast use vstd::seq_lib::group_to_multiset_ensures;
        }
        assert(state.waiting.to_multiset() =~= started_by(state, input).to_multiset().add(
            state.waiting.to_multiset(),
        ));
    }
}

/// Every library is indexed once. Over any series of turns, the libraries that waited or were
/// brought are those whose index was started and those that wait at the end, each as often.
pub proof fn law_every_library_is_started_once<L, V, D>(
    state: LoopView<L>,
    turns: Seq<TurnInput<L, V, D>>,
)
    ensures
        (state.waiting + brought(state, turns)).to_multiset() == started(
            state,
            turns,
        ).to_multiset().add(run(state, turns).waiting.to_multiset()),
    decreases turns.len(),
{
    if turns.len() == 0 {
        assert(state.waiting + brought(state, turns) == state.waiting);
        assert(started(state, turns).to_multiset() =~= vstd::multiset::Multiset::empty()) by {
            broadcast use vstd::seq_lib::group_to_multiset_ensures;
        }
        assert(state.waiting.to_multiset() =~= started(state, turns).to_multiset().add(
            state.waiting.to_multiset(),
        ));
    } else {
        let middle = run(state, turns.drop_last());
        let brought_before = brought(state, turns.drop_last());
        let started_before = started(state, turns.drop_last());
        let brought_last = brought_by(middle, turns.last());
        let started_last = started_by(middle, turns.last());
        law_every_library_is_started_once(state, turns.drop_last());
        lemma_turn_keeps_libraries(middle, turns.last());
        assert(state.waiting + (brought_before + brought_last) == (state.waiting + brought_before)
            + brought_last);
        vstd::seq_lib::lemma_multiset_commutative(state.waiting + brought_before, brought_last);
        vstd::seq_lib::lemma_multiset_commutative(middle.waiting, brought_last);
        vstd::seq_lib::lemma_multiset_commutative(started_before, started_last);
        let end = run(state, turns).waiting.to_multiset();
        assert(middle.waiting.to_multiset().add(brought_last.to_multiset())
            == started_last.to_multiset().add(end));
        assert((state.waiting + brought(state, turns)).to_multiset()
            =~= started_before.to_multiset().add(
            middle.waiting.to_multiset().add(brought_last.to_multiset()),
        ));
        assert(started(state, turns).to_multiset().add(end) =~= started_before.to_multiset().add(
            started_last.to_multiset().add(end),
        ));
    }
}

/// The libraries that are being indexed are those whose index was started and not yet reported as
/// done.
pub proof fn law_in_flight_is_started_less_done<L, V, D>(
    state: LoopView<L>,
    turns: Seq<TurnInput<L, V, D>>,
)
    requires
        accepts(state, turns),
    ensures
        run(state, turns).in_flight + done_count(turns) == state.in_flight + started(
            state,
            turns,
        ).len(),
    decreases turns.len(),
{
    if turns.len() > 0 {
        law_in_flight_is_started_less_done(state, turns.drop_last());
    }
}

/// The turn finds the workspace loaded for the first time.
pub open spec fn notes_loaded<L, V, D>(state: LoopView<L>, input: TurnInput<L, V, D>) -> bool {
    reaches_end(state, input) && crate::main_loop::is_loaded_now(
        state_before_end(state, input),
        input.new,
        input.roots_to_scan,
    )
}

/// The number of turns that find the workspace loaded for the first time.
pub open spec fn loaded_count<L, V, D>(
    state: LoopView<L>,
    turns: Seq<TurnInput<L, V, D>>,
) -> nat
    decreases turns.len(),
{
    if turns.len() == 0 {
        0
    } else {
        loaded_count(state, turns.drop_last()) + one_if(
            notes_loaded(run(state, turns.drop_last()), turns.last()),
        )
    }
}

/// The end of the turn tells the user that the workspace is loaded.
pub open spec fn tells_loaded<L, V, D>(state: LoopView<L>, input: TurnInput<L, V, D>) -> bool {
    reaches_end(state, input) && crate::main_loop::message_at_end(
        state_before_end(state, input),
        input.new,
        input.roots_to_scan,
        input.packages,
    ) is Some
}

/// The number of turns whose end tells the user that the workspace is loaded.
pub open spec fn told_count<L, V, D>(state: LoopView<L>, turns: Seq<TurnInput<L, V, D>>) -> nat
    decreases turns.len(),
{
    if turns.len() == 0 {
        0
    } else {
        told_count(state, turns.drop_last()) + one_if(
            tells_loaded(run(state, turns.drop_last()), turns.last()),
        )
    }
}

/// The user is told that the workspace is loaded at most once, and not again once the loop has
/// noted it. The options stay as they are, and where they ask for it, the user is told whenever the
/// loop notes it.
pub proof fn law_loaded_is_told_once<L, V, D>(
    state: LoopView<L>,
    turns: Seq<TurnInput<L, V, D>>,
)
    ensures
        loaded_count(state, turns) + one_if(run(state, turns).loading) == one_if(state.loading),
        told_count(state, turns) <= loaded_count(state, turns),
        told_count(state, turns) <= 1,
        run(state, turns).options == state.options,
        state.options.show_workspace_loaded ==> told_count(state, turns) == loaded_count(
            state,
            turns,
        ),
    decreases turns.len(),
{
    if turns.len() > 0 {
        law_loaded_is_told_once(state, turns.drop_last());
    }
}

/// A document that is opened and then closed leaves the subscriptions without its file.
pub proof fn law_closed_file_is_not_subscribed<L, V, D>(
    state: LoopView<L>,
    opened: StepView<V, D>,
    closed: StepView<V, D>,
    file: FileId,
)
    requires
        opened matches StepView::Document(DocumentStepView::Add { .. }),
        closed matches StepView::Document(DocumentStepView::Remove { .. }),
    ensures
        state_after_step(state, opened, Some(file)).subs.contains(file.0),
        state_after_step(
            state_after_step(state, opened, Some(file)),
            closed,
            Some(file),
        ).subs == state.subs.remove(file.0),
{
}

/// An event that ends the loop with an error leaves the state as it was.
pub proof fn law_error_changes_nothing<L, V, D>(state: LoopView<L>, input: TurnInput<L, V, D>)
    requires
        crate::main_loop::turn_for(state, input.event) is Err,
    ensures
        state_after_turn(state, input) == state,
{
}

/// The turn of every notification that does not end the loop brings the open files up to date.
pub proof fn law_notification_updates_files<L, V, D>(state: LoopView<L>, not: NotificationView)
    ensures
        crate::main_loop::turn_for::<L, V, D>(
            state,
            EventView::Msg(MessageView::Notification(not)),
        ) matches Ok(turn) ==> turn.state_changed,
{
}

/// The requests that are pending after a list of workers' messages.
pub open spec fn pending_after_tasks(pending: Set<u64>, tasks: Seq<TaskView>) -> Set<u64>
    decreases tasks.len(),
{
    if tasks.len() == 0 {
        pending
    } else {
        crate::tasks::pending_after_task(
            pending_after_tasks(pending, tasks.drop_last()),
            tasks.last(),
        )
    }
}

/// What the client is sent for a list of workers' messages that are passed on one after the other.
pub open spec fn sent_for_tasks(pending: Set<u64>, tasks: Seq<TaskView>) -> Seq<MessageView>
    decreases tasks.len(),
{
    if tasks.len() == 0 {
        Seq::empty()
    } else {
        let before = sent_for_tasks(pending, tasks.drop_last());
        match crate::tasks::sent_for_task(
            pending_after_tasks(pending, tasks.drop_last()),
            tasks.last(),
        ) {
            Some(message) => before.push(message),
            None => before,
        }
    }
}

/// The worker's message is a response with this id.
pub open spec fn responds_to(task: TaskView, id: u64) -> bool {
    task matches TaskView::Respond(response) && response.id == id
}

/// One of the workers' messages is a response with this id.
pub open spec fn has_response(tasks: Seq<TaskView>, id: u64) -> bool {
    exists|i: int| 0 <= i < tasks.len() && responds_to(#[trigger] tasks[i], id)
}

/// The client gets this one of the workers' messages: a notification always, a response where its
/// request is pending and no earlier message answers it.
pub open spec fn is_passed(pending: Set<u64>, tasks: Seq<TaskView>, i: int) -> bool {
    match tasks[i] {
        TaskView::Notify(_) => true,
        TaskView::Respond(response) => pending.contains(response.id) && !has_response(
            tasks.take(i),
            response.id,
        ),
    }
}

/// A worker's message as the client gets it.
pub open spec fn as_message(task: TaskView) -> MessageView {
    match task {
        TaskView::Notify(notification) => MessageView::Notification(notification),
        TaskView::Respond(response) => MessageView::Response(response),
    }
}

/// The numbers rise from each to the next.
pub open spec fn is_rising(numbers: Seq<int>) -> bool {
    forall|i: int, j: int| 0 <= i < j < numbers.len() ==> numbers[i] < numbers[j]
}

/// A request is pending after a list of workers' messages if and only if it was before and none of
/// them answers it.
pub proof fn law_left_tasks_end_the_wait(pending: Set<u64>, tasks: Seq<TaskView>, id: u64)
    ensures
        pending_after_tasks(pending, tasks).contains(id) <==> pending.contains(id)
            && !has_response(tasks, id),
    decreases tasks.len(),
{
    if tasks.len() > 0 {
        let before = tasks.drop_last();
        law_left_tasks_end_the_wait(pending, before, id);
        if has_response(before, id) {
            let i = choose|i: int| 0 <= i < before.len() && responds_to(#[trigger] before[i], id);
            assert(tasks[i] == before[i]);
        }
        if has_response(tasks, id) && !responds_to(tasks.last(), id) {
            let i = choose|i: int| 0 <= i < tasks.len() && responds_to(#[trigger] tasks[i], id);
            assert(before[i] == tasks[i]);
        }
        if responds_to(tasks.last(), id) {
            assert(responds_to(tasks[tasks.len() - 1], id));
        }
    }
}

/// The number of responses with this id among the messages.
pub open spec fn responses_in(messages: Seq<MessageView>, id: u64) -> nat
    decreases messages.len(),
{
    if messages.len() == 0 {
        0
    } else {
        responses_in(messages.drop_last(), id) + one_if(
            messages.last() matches MessageView::Response(response) && response.id == id,
        )
    }
}

proof fn lemma_left_tasks_balance(pending: Set<u64>, tasks: Seq<TaskView>, id: u64)
    ensures
        one_if(pending.contains(id)) == responses_in(sent_for_tasks(pending, tasks), id) + one_if(
            pending_after_tasks(pending, tasks).contains(id),
        ),
    decreases tasks.len(),
{
    if tasks.len() > 0 {
        lemma_left_tasks_balance(pending, tasks.drop_last(), id);
        let before = sent_for_tasks(pending, tasks.drop_last());
        let sent = sent_for_tasks(pending, tasks);
        assert(sent != before ==> sent.drop_last() == before);
    }
}

/// Every request gets one response, also when its worker answers after the loop has ended: over the
/// turns and the messages that workers have left, the responses with an id are as many as the
/// requests with it, less the one that nobody has answered, and with the one that was pending at the
/// start.
pub proof fn law_one_response_with_left_tasks<L, V, D>(
    state: LoopView<L>,
    turns: Seq<TurnInput<L, V, D>>,
    tasks: Seq<TaskView>,
    id: u64,
)
    requires
        accepts(state, turns),
    ensures
        ({
            let pending = run(state, turns).pending;
            request_count(turns, id) + one_if(state.pending.contains(id)) == response_count(
                state,
                turns,
                id,
            ) + responses_in(sent_for_tasks(pending, tasks), id) + one_if(
                pending_after_tasks(pending, tasks).contains(id),
            )
        }),
{
    law_one_response_per_request(state, turns, id);
    lemma_left_tasks_balance(run(state, turns).pending, tasks, id);
}

/// The messages that the workers have left when the loop ends are passed on in their order: every
/// notification, and every response whose request is still pending and has no earlier response among
/// them. Nothing else is sent; the result tells the places of the messages that are.
pub proof fn law_left_tasks_are_passed_on(pending: Set<u64>, tasks: Seq<TaskView>) -> (passed: Seq<
    int,
>)
    ensures
        is_rising(passed),
        forall|i: int| #[trigger] passed.contains(i) <==> 0 <= i < tasks.len() && is_passed(
            pending,
            tasks,
            i,
        ),
        sent_for_tasks(pending, tasks) == passed.map_values(|i: int| as_message(tasks[i])),
    decreases tasks.len(),
{
    if tasks.len() == 0 {
        let passed = Seq::<int>::empty();
        assert(sent_for_tasks(pending, tasks) == passed.map_values(
            |i: int| as_message(tasks[i]),
        ));
        passed
    } else {
        let before = tasks.drop_last();
        let last = tasks.len() - 1;
        let earlier = law_left_tasks_are_passed_on(pending, before);
        assert forall|i: int| 0 <= i < last implies is_passed(pending, tasks, i) == is_passed(
            pending,
            before,
            i,
        ) by {
            assert(tasks.take(i) == before.take(i));
        }
        assert(tasks.take(last) == before);
        assert forall|k: int| 0 <= k < earlier.len() implies 0 <= #[trigger] earlier[k] < last by {
            assert(earlier.contains(earlier[k]));
        }
        if let TaskView::Respond(response) = tasks.last() {
            law_left_tasks_end_the_wait(pending, before, response.id);
        }
        let passed = if is_passed(pending, tasks, last) {
            earlier.push(last)
        } else {
            earlier
        };
        assert forall|i: int| #[trigger]
            passed.contains(i) <==> 0 <= i < tasks.len() && is_passed(pending, tasks, i) by {
            if earlier.contains(i) {
                let k = choose|k: int| 0 <= k < earlier.len() && earlier[k] == i;
                assert(passed[k] == i);
            }
            if i == last && is_passed(pending, tasks, last) {
                assert(passed[passed.len() - 1] == last);
            }
        }
        assert(sent_for_tasks(pending, tasks) == passed.map_values(
            |i: int| as_message(tasks[i]),
        ));
        passed
    }
}

} // verus!
