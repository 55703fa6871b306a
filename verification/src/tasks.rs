//! The life cycle of proof tasks and the single owner of their state.
//!
//! A task is submitted, handed to a worker, and completed with the worker's outcome.
//! All of that is recorded in one table, changed by one command at a time; what a
//! command leaves to be done outside the table (answering a poll, starting a worker)
//! comes back as an [`Effect`].

use std::collections::HashMap;
use std::sync::Arc;

use vstd::prelude::*;

use crate::error::{AppError, ProvingError, STATUS_ACCEPTED, STATUS_OK};
use crate::task_id::{draw_task_id, is_random_uuid, TaskId};

verus! {

broadcast use vstd::std_specs::hash::group_hash_axioms;

/// Where a task stands.
#[derive(Debug)]
pub enum TaskStatus<R> {
    /// Recorded, not yet handed to a worker.
    Submitted,
    /// A worker is producing the proof.
    InProgress,
    /// The worker has finished, with a response or with a failure.
    Complete(Result<R, AppError>),
}

impl<R> TaskStatus<R> {
    /// The position of the status in the life cycle: a task only ever moves to a
    /// status of higher rank.
    pub open spec fn rank(self) -> nat {
        match self {
            TaskStatus::Submitted => 0,
            TaskStatus::InProgress => 1,
            TaskStatus::Complete(_) => 2,
        }
    }

    /// The name under which the status is reported.
    pub open spec fn name(self) -> Seq<char> {
        match self {
            TaskStatus::Submitted => "Submitted"@,
            TaskStatus::InProgress => "InProgress"@,
            TaskStatus::Complete(_) => "Complete"@,
        }
    }

    /// What a read of the task's result gives: the outcome of a completed task, and
    /// a refusal for one that has not finished.
    pub open spec fn response(self) -> Result<R, AppError> {
        match self {
            TaskStatus::Submitted | TaskStatus::InProgress => Err(AppError::TaskNotCompleted),
            TaskStatus::Complete(outcome) => outcome,
        }
    }

    /// The outcome of the task, if it has finished.
    pub fn get_response(self) -> (response: Result<R, AppError>)
        ensures
            response == self.response(),
            !(self is Complete) ==> response == Err::<R, AppError>(AppError::TaskNotCompleted),
    {
        match self {
            TaskStatus::Submitted | TaskStatus::InProgress => Err(AppError::TaskNotCompleted),
            TaskStatus::Complete(outcome) => outcome,
        }
    }

    /// The name under which the status is reported.
    pub fn state_name(&self) -> (name: &'static str)
        ensures
            name@ == self.name(),
    {
        match self {
            TaskStatus::Submitted => "Submitted",
            TaskStatus::InProgress => "InProgress",
            TaskStatus::Complete(_) => "Complete",
        }
    }

    /// The HTTP status under which the status is reported: 202 while the task has
    /// only been submitted, 200 afterwards.
    pub fn status_code(&self) -> (code: u16)
        ensures
            code == if self is Submitted { STATUS_ACCEPTED } else { STATUS_OK },
    {
        match self {
            TaskStatus::Submitted => STATUS_ACCEPTED,
            _ => STATUS_OK,
        }
    }

    /// Whether `self` is what cloning `source` may give: the same status, with a
    /// clone of the response or an equal failure.
    pub open spec fn is_copy_of(self, source: Self) -> bool where R: Clone {
        match (source, self) {
            (TaskStatus::Submitted, TaskStatus::Submitted) => true,
            (TaskStatus::InProgress, TaskStatus::InProgress) => true,
            (TaskStatus::Complete(Ok(a)), TaskStatus::Complete(Ok(b))) => cloned::<R>(a, b),
            (TaskStatus::Complete(Err(a)), TaskStatus::Complete(Err(b))) => a@ == b@,
            _ => false,
        }
    }
}

impl<R: Clone> Clone for TaskStatus<R> {
    fn clone(&self) -> (copy: Self)
        ensures
            copy.is_copy_of(*self),
    {
        match self {
            TaskStatus::Submitted => TaskStatus::Submitted,
            TaskStatus::InProgress => TaskStatus::InProgress,
            TaskStatus::Complete(Ok(response)) => TaskStatus::Complete(Ok(response.clone())),
            TaskStatus::Complete(Err(failure)) => TaskStatus::Complete(Err(failure.clone())),
        }
    }
}

/// What the owner of the task table is asked to do.
pub enum Command<C, R> {
    /// Report where the task stands.
    Status { id: TaskId },
    /// Record the task and start a worker on `config`.
    Generate { id: TaskId, config: C },
    /// Record what the worker of the task came back with.
    Complete { id: TaskId, zk_epd: Result<R, ProvingError> },
}

/// What a command leaves to be done outside the table.
pub enum Effect<C, R> {
    /// Answer the poll with this.
    Reply(Result<TaskStatus<R>, AppError>),
    /// Start a worker on `config`; its outcome comes back as
    /// [`Command::Complete`] under the same `id`.
    Spawn { id: TaskId, config: C },
    /// Nothing: the outcome is recorded.
    Recorded,
}

/// The outcome that is recorded for what a worker came back with.
pub open spec fn recorded_outcome<R>(zk_epd: Result<R, ProvingError>) -> Result<R, AppError> {
    match zk_epd {
        Ok(response) => Ok(response),
        Err(cause) => Err(AppError::ProofGenerationFailed(Arc::new(cause))),
    }
}

/// Whether `command` may be given to the owner of `tasks`: a task is submitted
/// under an identifier that the table does not hold, and a completion is that of a
/// task in progress.
pub open spec fn admissible<C, R>(
    tasks: Map<TaskId, TaskStatus<R>>,
    command: Command<C, R>,
) -> bool {
    match command {
        Command::Status { .. } => true,
        Command::Generate { id, .. } => !tasks.contains_key(id),
        Command::Complete { id, .. } => tasks.contains_key(id) && tasks[id] is InProgress,
    }
}

/// The table after `command`.
pub open spec fn after<C, R>(tasks: Map<TaskId, TaskStatus<R>>, command: Command<C, R>) -> Map<
    TaskId,
    TaskStatus<R>,
> {
    match command {
        Command::Status { .. } => tasks,
        Command::Generate { id, .. } => tasks.insert(id, TaskStatus::InProgress),
        Command::Complete { id, zk_epd } => tasks.insert(
            id,
            TaskStatus::Complete(recorded_outcome(zk_epd)),
        ),
    }
}

/// What a poll of task `id` is answered with: its status, or
/// [`AppError::UnknownTask`] where the table holds no such task.
pub open spec fn status_of<R>(tasks: Map<TaskId, TaskStatus<R>>, id: TaskId) -> Result<
    TaskStatus<R>,
    AppError,
> {
    if tasks.contains_key(id) {
        Ok(tasks[id])
    } else {
        Err(AppError::UnknownTask(id))
    }
}

/// What a read of the result of task `id` gives: [`AppError::UnknownTask`] where
/// the table holds no such task, [`AppError::TaskNotCompleted`] while the task has
/// not finished, and its outcome afterwards.
pub open spec fn result_of<R>(tasks: Map<TaskId, TaskStatus<R>>, id: TaskId) -> Result<
    R,
    AppError,
> {
    match status_of(tasks, id) {
        Ok(status) => status.response(),
        Err(failure) => Err(failure),
    }
}

/// The owner of the task table.
pub struct ProvingService<R> {
    tasks: HashMap<TaskId, TaskStatus<R>>,
}

impl<R> View for ProvingService<R> {
    type V = Map<TaskId, TaskStatus<R>>;

    closed spec fn view(&self) -> Map<TaskId, TaskStatus<R>> {
        self.tasks@
    }
}

impl<R> ProvingService<R> {
    /// A service without tasks.
    pub fn new() -> (service: Self)
        ensures
            service@ == Map::<TaskId, TaskStatus<R>>::empty(),
    {
        ProvingService { tasks: HashMap::new() }
    }

    /// The number of tasks ever recorded.
    pub fn task_count(&self) -> (count: usize)
        ensures
            count == self@.len(),
            self@.dom().finite(),
    {
        self.tasks.len()
    }

    /// Whether a task with this identifier was recorded.
    pub fn is_known(&self, id: TaskId) -> (known: bool)
        ensures
            known == self@.contains_key(id),
    {
        self.tasks.contains_key(&id)
    }

    /// Whether `command` may be given to [`ProvingService::handle`].
    pub fn admits<C>(&self, command: &Command<C, R>) -> (admitted: bool)
        ensures
            admitted == admissible(self@, *command),
    {
        match command {
            Command::Status { .. } => true,
            Command::Generate { id, .. } => !self.tasks.contains_key(id),
            Command::Complete { id, .. } => match self.tasks.get(id) {
                Some(TaskStatus::InProgress) => true,
                _ => false,
            },
        }
    }

    /// Where the task stands; [`AppError::UnknownTask`] if no such task was recorded.
    pub fn get_status(&self, id: TaskId) -> (status: Result<&TaskStatus<R>, AppError>)
        ensures
            match status {
                Ok(found) => status_of(self@, id) == Ok::<TaskStatus<R>, AppError>(*found),
                Err(failure) => status_of(self@, id) == Err::<TaskStatus<R>, AppError>(failure),
            },
    {
        match self.tasks.get(&id) {
            Some(found) => Ok(found),
            None => Err(AppError::UnknownTask(id)),
        }
    }

    /// The response of the task: [`AppError::UnknownTask`] if no such task was
    /// recorded, [`AppError::TaskNotCompleted`] while it has not finished, the failure
    /// of its proof job if that failed, and its response otherwise.
    pub fn result(&self, id: TaskId) -> (response: Result<&R, AppError>)
        ensures
            match response {
                Ok(found) => result_of(self@, id) == Ok::<R, AppError>(*found),
                Err(failure) => result_of(self@, id) matches Err(owed) && failure@ == owed@,
            },
    {
        match self.tasks.get(&id) {
            None => Err(AppError::UnknownTask(id)),
            Some(TaskStatus::Complete(Ok(found))) => Ok(found),
            Some(TaskStatus::Complete(Err(recorded))) => Err(recorded.clone()),
            Some(_) => Err(AppError::TaskNotCompleted),
        }
    }

    /// Records a new task under `id` as submitted.
    pub fn submit(&mut self, id: TaskId)
        requires
            !old(self)@.contains_key(id),
        ensures
            final(self)@ == old(self)@.insert(id, TaskStatus::Submitted),
    {
        self.tasks.insert(id, TaskStatus::Submitted);
    }

    /// Draws an identifier for a new task and makes the command that records the
    /// task under it and starts a worker on `config`.
    ///
    /// The identifier is random: that it differs from those drawn before is likely
    /// beyond doubt, and not certain. Whether the table holds it already is told by
    /// [`ProvingService::admits`].
    pub fn add_task<C>(config: C) -> (task: (TaskId, Command<C, R>))
        ensures
            is_random_uuid(task.0),
            task.1 == (Command::<C, R>::Generate { id: task.0, config }),
    {
        let id = draw_task_id();
        (id, Command::Generate { id, config })
    }

    /// Hands a submitted task to a worker: its status becomes
    /// [`TaskStatus::InProgress`]. A task that is not in the table, or not waiting,
    /// is left as it is, and the answer is `false`.
    pub fn dispatch(&mut self, id: TaskId) -> (started: bool)
        ensures
            started == (old(self)@.contains_key(id) && old(self)@[id] is Submitted),
            final(self)@ == if started {
                old(self)@.insert(id, TaskStatus::InProgress)
            } else {
                old(self)@
            },
    {
        let waiting = match self.tasks.get(&id) {
            Some(TaskStatus::Submitted) => true,
            _ => false,
        };
        if waiting {
            self.tasks.insert(id, TaskStatus::InProgress);
        }
        waiting
    }

    /// Records what the worker of task `id` came back with.
    pub fn complete(&mut self, id: TaskId, zk_epd: Result<R, ProvingError>)
        requires
            old(self)@.contains_key(id),
            old(self)@[id] is InProgress,
        ensures
            final(self)@ == old(self)@.insert(id, TaskStatus::Complete(recorded_outcome(zk_epd))),
    {
        let outcome = match zk_epd {
            Ok(response) => Ok(response),
            Err(cause) => Err(AppError::ProofGenerationFailed(Arc::new(cause))),
        };
        self.tasks.insert(id, TaskStatus::Complete(outcome));
    }

    /// Carries out one command and says what is left to be done outside.
    ///
    /// A poll changes nothing and is answered with a copy of the task's status. A new
    /// task is recorded, handed out as a job, and stands as in progress. A completion
    /// is recorded.
    pub fn handle<C>(&mut self, command: Command<C, R>) -> (effect: Effect<C, R>) where R: Clone
        requires
            admissible(old(self)@, command),
        ensures
            final(self)@ == after(old(self)@, command),
            match command {
                Command::Status { id } => match effect {
                    Effect::Reply(Ok(status)) => status_of(old(self)@, id) matches Ok(held)
                        && status.is_copy_of(held),
                    Effect::Reply(Err(failure)) => status_of(old(self)@, id) == Err::<
                        TaskStatus<R>,
                        AppError,
                    >(failure),
                    _ => false,
                },
                Command::Generate { id, config } => effect == (Effect::<C, R>::Spawn {
                    id,
                    config,
                }),
                Command::Complete { .. } => effect is Recorded,
            },
    {
        match command {
            Command::Status { id } => {
                let reply = match self.get_status(id) {
                    Ok(found) => Ok(found.clone()),
                    Err(failure) => Err(failure),
                };
                Effect::Reply(reply)
            },
            Command::Generate { id, config } => {
                self.submit(id);
                let started = self.dispatch(id);
                assert(started);
                assert(self@ == old(self)@.insert(id, TaskStatus::InProgress));
                Effect::Spawn { id, config }
            },
            Command::Complete { id, zk_epd } => {
                self.complete(id, zk_epd);
                Effect::Recorded
            },
        }
    }
}

/// The table after a run of commands, carried out in order.
pub open spec fn after_all<C, R>(
    tasks: Map<TaskId, TaskStatus<R>>,
    commands: Seq<Command<C, R>>,
) -> Map<TaskId, TaskStatus<R>>
    decreases commands.len(),
{
    if commands.len() == 0 {
        tasks
    } else {
        after_all(after(tasks, commands.first()), commands.drop_first())
    }
}

/// Whether every command of the run may be given when its turn comes.
pub open spec fn all_admissible<C, R>(
    tasks: Map<TaskId, TaskStatus<R>>,
    commands: Seq<Command<C, R>>,
) -> bool
    decreases commands.len(),
{
    commands.len() == 0 || (admissible(tasks, commands.first()) && all_admissible(
        after(tasks, commands.first()),
        commands.drop_first(),
    ))
}

/// One command moves a task by one step at most, and never back: a task of the
/// table stays, at its rank or the next one, and keeps its outcome once it is
/// complete; a task that is new stands in progress.
pub proof fn law_one_step_at_a_time<C, R>(
    tasks: Map<TaskId, TaskStatus<R>>,
    command: Command<C, R>,
    id: TaskId,
)
    requires
        admissible(tasks, command),
    ensures
        tasks.contains_key(id) ==> after(tasks, command).contains_key(id),
        tasks.contains_key(id) ==> tasks[id].rank() <= after(tasks, command)[id].rank()
            <= tasks[id].rank() + 1,
        tasks.contains_key(id) && tasks[id] is Complete ==> after(tasks, command)[id] == tasks[id],
        !tasks.contains_key(id) && after(tasks, command).contains_key(id) ==> after(
            tasks,
            command,
        )[id] is InProgress,
{
}

/// A task only moves forward and is never dropped: after any admissible run, every
/// task of the table is still there, at its old rank or a higher one.
pub proof fn law_run_moves_forward<C, R>(
    tasks: Map<TaskId, TaskStatus<R>>,
    commands: Seq<Command<C, R>>,
    id: TaskId,
)
    requires
        all_admissible(tasks, commands),
        tasks.contains_key(id),
    ensures
        after_all(tasks, commands).contains_key(id),
        after_all(tasks, commands)[id].rank() >= tasks[id].rank(),
    decreases commands.len(),
{
    if commands.len() > 0 {
        law_one_step_at_a_time(tasks, commands.first(), id);
        law_run_moves_forward(after(tasks, commands.first()), commands.drop_first(), id);
    }
}

/// The outcome of a completed task is kept: after any admissible run, the task
/// stands as it stood, so that every read of its result gives the same outcome.
pub proof fn law_outcome_is_kept<C, R>(
    tasks: Map<TaskId, TaskStatus<R>>,
    commands: Seq<Command<C, R>>,
    id: TaskId,
)
    requires
        all_admissible(tasks, commands),
        tasks.contains_key(id),
        tasks[id] is Complete,
    ensures
        after_all(tasks, commands).contains_key(id),
        after_all(tasks, commands)[id] == tasks[id],
        status_of(after_all(tasks, commands), id) == status_of(tasks, id),
        result_of(after_all(tasks, commands), id) == result_of(tasks, id),
    decreases commands.len(),
{
    if commands.len() > 0 {
        law_one_step_at_a_time(tasks, commands.first(), id);
        law_outcome_is_kept(after(tasks, commands.first()), commands.drop_first(), id);
    }
}

/// A task that was never submitted stays unknown, whatever happens to other tasks:
/// after any admissible run that submits no task under `id`, the table holds no
/// task `id`, so that a poll or a read of its result is answered with
/// [`AppError::UnknownTask`].
pub proof fn law_unknown_until_submitted<C, R>(
    tasks: Map<TaskId, TaskStatus<R>>,
    commands: Seq<Command<C, R>>,
    id: TaskId,
)
    requires
        !tasks.contains_key(id),
        all_admissible(tasks, commands),
        forall|i: int|
            0 <= i < commands.len() ==> !(#[trigger] commands[i] matches Command::Generate {
                id: named,
                ..
            } && named == id),
    ensures
        !after_all(tasks, commands).contains_key(id),
        status_of(after_all(tasks, commands), id) == Err::<TaskStatus<R>, AppError>(
            AppError::UnknownTask(id),
        ),
        result_of(after_all(tasks, commands), id) == Err::<R, AppError>(AppError::UnknownTask(id)),
    decreases commands.len(),
{
    if commands.len() > 0 {
        let first = commands.first();
        let rest = commands.drop_first();
        assert(first == commands[0]);
        assert forall|i: int| 0 <= i < rest.len() implies !(#[trigger] rest[i] matches Command::Generate {
            id: named,
            ..
        } && named == id) by {
            assert(rest[i] == commands[i + 1]);
        }
        law_unknown_until_submitted(after(tasks, first), rest, id);
    }
}

/// A task that is complete was in progress before: in any admissible run from a
/// table without complete tasks, a task that ends complete stood in progress at
/// some turn of the run.
pub proof fn law_completion_follows_progress<C, R>(
    tasks: Map<TaskId, TaskStatus<R>>,
    commands: Seq<Command<C, R>>,
    id: TaskId,
)
    requires
        all_admissible(tasks, commands),
        !(tasks.contains_key(id) && tasks[id] is Complete),
        after_all(tasks, commands).contains_key(id),
        after_all(tasks, commands)[id] is Complete,
    ensures
        exists|turn: int|
            0 <= turn <= commands.len() && (#[trigger] after_all(
                tasks,
                commands.subrange(0, turn),
            )).contains_key(id) && after_all(tasks, commands.subrange(0, turn))[id] is InProgress,
    decreases commands.len(),
{
    if commands.len() == 0 {
    } else {
        let first = commands.first();
        let rest = commands.drop_first();
        let next = after(tasks, first);
        law_one_step_at_a_time(tasks, first, id);
        if next.contains_key(id) && next[id] is Complete {
            // The first command completed the task: it was in progress before.
            assert(commands.subrange(0, 0) =~= Seq::<Command<C, R>>::empty());
            assert(after_all(tasks, commands.subrange(0, 0)) == tasks);
        } else {
            law_completion_follows_progress(next, rest, id);
            let turn = choose|turn: int|
                0 <= turn <= rest.len() && (#[trigger] after_all(
                    next,
                    rest.subrange(0, turn),
                )).contains_key(id) && after_all(next, rest.subrange(0, turn))[id] is InProgress;
            let longer = commands.subrange(0, turn + 1);
            assert(longer.first() == first);
            assert(longer.drop_first() =~= rest.subrange(0, turn));
            assert(after_all(tasks, longer) == after_all(next, rest.subrange(0, turn)));
        }
    }
}

/// A poll changes nothing: the table after any number of polls is the table before.
pub proof fn law_polls_change_nothing<C, R>(
    tasks: Map<TaskId, TaskStatus<R>>,
    commands: Seq<Command<C, R>>,
)
    requires
        forall|i: int| 0 <= i < commands.len() ==> #[trigger] commands[i] is Status,
    ensures
        after_all(tasks, commands) == tasks,
        all_admissible(tasks, commands),
    decreases commands.len(),
{
    if commands.len() > 0 {
        let first = commands.first();
        let rest = commands.drop_first();
        assert(first == commands[0]);
        assert forall|i: int| 0 <= i < rest.len() implies #[trigger] rest[i] is Status by {
            assert(rest[i] == commands[i + 1]);
        }
        law_polls_change_nothing(after(tasks, first), rest);
    }
}

/// A submission under an identifier that the table does not hold makes one new task
/// and leaves every other task as it was.
pub proof fn law_new_identifier_new_task<C, R>(
    tasks: Map<TaskId, TaskStatus<R>>,
    id: TaskId,
    config: C,
)
    requires
        tasks.dom().finite(),
        !tasks.contains_key(id),
    ensures
        ({
            let next = after(tasks, Command::<C, R>::Generate { id, config });
            &&& next.dom() == tasks.dom().insert(id)
            &&& next.len() == tasks.len() + 1
            &&& next[id] is InProgress
            &&& forall|other: TaskId| #[trigger]
                tasks.contains_key(other) ==> next.contains_key(other) && next[other]
                    == tasks[other]
        }),
{
    let next = after(tasks, Command::<C, R>::Generate { id, config });
    assert(next.dom() =~= tasks.dom().insert(id));
}

/// Submissions make as many tasks: after an admissible run of submissions the table
/// has grown by the length of the run, so that the identifiers of the run are as
/// many different ones.
pub proof fn law_submissions_are_counted<C, R>(
    tasks: Map<TaskId, TaskStatus<R>>,
    commands: Seq<Command<C, R>>,
)
    requires
        tasks.dom().finite(),
        forall|i: int| 0 <= i < commands.len() ==> #[trigger] commands[i] is Generate,
        all_admissible(tasks, commands),
    ensures
        after_all(tasks, commands).dom().finite(),
        after_all(tasks, commands).len() == tasks.len() + commands.len(),
    decreases commands.len(),
{
    if commands.len() > 0 {
        let first = commands.first();
        let rest = commands.drop_first();
        assert(first == commands[0]);
        assert forall|i: int| 0 <= i < rest.len() implies #[trigger] rest[i] is Generate by {
            assert(rest[i] == commands[i + 1]);
        }
        match first {
            Command::Generate { id, config } => {
                law_new_identifier_new_task::<C, R>(tasks, id, config);
            },
            _ => {},
        }
        law_submissions_are_counted(after(tasks, first), rest);
    }
}

/// The identifier under which the command submits a task, if it submits one.
pub open spec fn submitted_id<C, R>(command: Command<C, R>) -> Option<TaskId> {
    match command {
        Command::Generate { id, .. } => Some(id),
        _ => None,
    }
}

/// No task is submitted under the identifier of a task of the table: in an
/// admissible run, no submission names an identifier that the table held before.
pub proof fn law_known_identifier_is_not_submitted<C, R>(
    tasks: Map<TaskId, TaskStatus<R>>,
    commands: Seq<Command<C, R>>,
    id: TaskId,
    turn: int,
)
    requires
        all_admissible(tasks, commands),
        tasks.contains_key(id),
        0 <= turn < commands.len(),
    ensures
        submitted_id(commands[turn]) != Some(id),
    decreases commands.len(),
{
    let first = commands.first();
    assert(first == commands[0]);
    if turn > 0 {
        law_one_step_at_a_time(tasks, first, id);
        assert(commands.drop_first()[turn - 1] == commands[turn]);
        law_known_identifier_is_not_submitted(
            after(tasks, first),
            commands.drop_first(),
            id,
            turn - 1,
        );
    }
}

/// The tasks of an admissible run come under identifiers of their own: no two
/// submissions of the run name the same identifier.
pub proof fn law_submitted_identifiers_differ<C, R>(
    tasks: Map<TaskId, TaskStatus<R>>,
    commands: Seq<Command<C, R>>,
    one: int,
    other: int,
)
    requires
        all_admissible(tasks, commands),
        0 <= one < other < commands.len(),
        submitted_id(commands[one]) is Some,
    ensures
        submitted_id(commands[one]) != submitted_id(commands[other]),
    decreases commands.len(),
{
    let first = commands.first();
    let rest = commands.drop_first();
    assert(first == commands[0]);
    assert(rest[other - 1] == commands[other]);
    if one == 0 {
        let id = submitted_id(first)->Some_0;
        law_known_identifier_is_not_submitted(after(tasks, first), rest, id, other - 1);
    } else {
        assert(rest[one - 1] == commands[one]);
        law_submitted_identifiers_differ(after(tasks, first), rest, one - 1, other - 1);
    }
}

/// A read of the result of a task that has not finished is refused with
/// [`AppError::TaskNotCompleted`]; a read of the result of a finished task gives
/// the outcome that was recorded.
pub proof fn law_result_only_after_completion<R>(tasks: Map<TaskId, TaskStatus<R>>, id: TaskId)
    requires
        tasks.contains_key(id),
    ensures
        !(tasks[id] is Complete) ==> result_of(tasks, id) == Err::<R, AppError>(
            AppError::TaskNotCompleted,
        ),
        tasks[id] matches TaskStatus::Complete(outcome) ==> result_of(tasks, id) == outcome,
{
}

/// Once a worker has come back, the task is complete with the outcome recorded for
/// what the worker brought.
pub proof fn law_completion_records_the_outcome<C, R>(
    tasks: Map<TaskId, TaskStatus<R>>,
    id: TaskId,
    zk_epd: Result<R, ProvingError>,
)
    ensures
        result_of(after(tasks, Command::<C, R>::Complete { id, zk_epd }), id) == recorded_outcome(
            zk_epd,
        ),
{
}

} // verus!
