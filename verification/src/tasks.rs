//! Tasks kept in a CalDAV calendar: how the server's tasks are shown, which
//! tasks a query selects, and how a task is created and updated.

use vstd::prelude::*;

use crate::error::ApplicationError;
use crate::ids;
use crate::integrations::{task_not_found, task_not_found_text};
use crate::text;

verus! {

/// Status of a task, as the application knows it.
#[derive(Debug, Clone, Copy, PartialEq, Eq, Structural)]
pub enum TaskStatus {
    /// Not started.
    NeedsAction,
    /// Being worked on.
    InProgress,
    /// Done.
    Completed,
    /// Dropped.
    Cancelled,
}

/// Priority of a task, as the application knows it.
#[derive(Debug, Clone, Copy, PartialEq, Eq, Structural)]
pub enum Priority {
    /// High priority.
    High,
    /// Medium priority.
    Medium,
    /// Low priority.
    Low,
}

/// Status of a task, as the CalDAV server stores it.
#[derive(Debug, Clone, Copy, PartialEq, Eq, Structural)]
pub enum CalDavStatus {
    /// `NEEDS-ACTION`.
    NeedsAction,
    /// `IN-PROCESS`.
    InProgress,
    /// `COMPLETED`.
    Completed,
    /// `CANCELLED`.
    Cancelled,
}

/// Priority of a task, as the CalDAV server stores it.
#[derive(Debug, Clone, Copy, PartialEq, Eq, Structural)]
pub enum CalDavPriority {
    /// High priority.
    High,
    /// Medium priority.
    Medium,
    /// Low priority.
    Low,
}

/// The application's priority for a stored one: the one of the same name.
pub open spec fn priority_from(p: CalDavPriority) -> Priority {
    match p {
        CalDavPriority::High => Priority::High,
        CalDavPriority::Medium => Priority::Medium,
        CalDavPriority::Low => Priority::Low,
    }
}

/// The stored priority for one of the application: the one of the same name.
pub open spec fn priority_to(p: Priority) -> CalDavPriority {
    match p {
        Priority::High => CalDavPriority::High,
        Priority::Medium => CalDavPriority::Medium,
        Priority::Low => CalDavPriority::Low,
    }
}

/// The application's status for a stored one: the one of the same name.
pub open spec fn status_from(s: CalDavStatus) -> TaskStatus {
    match s {
        CalDavStatus::NeedsAction => TaskStatus::NeedsAction,
        CalDavStatus::InProgress => TaskStatus::InProgress,
        CalDavStatus::Completed => TaskStatus::Completed,
        CalDavStatus::Cancelled => TaskStatus::Cancelled,
    }
}

/// The stored status for one of the application: the one of the same name.
pub open spec fn status_to(s: TaskStatus) -> CalDavStatus {
    match s {
        TaskStatus::NeedsAction => CalDavStatus::NeedsAction,
        TaskStatus::InProgress => CalDavStatus::InProgress,
        TaskStatus::Completed => CalDavStatus::Completed,
        TaskStatus::Cancelled => CalDavStatus::Cancelled,
    }
}

/// Converts a stored priority (see `priority_from`).
pub fn map_priority_from_caldav(priority: CalDavPriority) -> (p: Priority)
    ensures
        p == priority_from(priority),
{
    match priority {
        CalDavPriority::High => Priority::High,
        CalDavPriority::Medium => Priority::Medium,
        CalDavPriority::Low => Priority::Low,
    }
}

/// Converts a priority for storing (see `priority_to`).
pub fn map_priority_to_caldav(priority: Priority) -> (p: CalDavPriority)
    ensures
        p == priority_to(priority),
{
    match priority {
        Priority::High => CalDavPriority::High,
        Priority::Medium => CalDavPriority::Medium,
        Priority::Low => CalDavPriority::Low,
    }
}

/// Converts a stored status (see `status_from`).
pub fn map_status_from_caldav(status: CalDavStatus) -> (s: TaskStatus)
    ensures
        s == status_from(status),
{
    match status {
        CalDavStatus::NeedsAction => TaskStatus::NeedsAction,
        CalDavStatus::InProgress => TaskStatus::InProgress,
        CalDavStatus::Completed => TaskStatus::Completed,
        CalDavStatus::Cancelled => TaskStatus::Cancelled,
    }
}

/// Converts a status for storing (see `status_to`).
pub fn map_status_to_caldav(status: TaskStatus) -> (s: CalDavStatus)
    ensures
        s == status_to(status),
{
    match status {
        TaskStatus::NeedsAction => CalDavStatus::NeedsAction,
        TaskStatus::InProgress => CalDavStatus::InProgress,
        TaskStatus::Completed => CalDavStatus::Completed,
        TaskStatus::Cancelled => CalDavStatus::Cancelled,
    }
}

/// Storing a priority or status and reading it back gives it back, and so
/// does reading a stored one and storing it again.
pub proof fn lemma_task_fields_round_trip(p: Priority, s: TaskStatus, cp: CalDavPriority, cs: CalDavStatus)
    ensures
        priority_from(priority_to(p)) == p,
        status_from(status_to(s)) == s,
        priority_to(priority_from(cp)) == cp,
        status_to(status_from(cs)) == cs,
{
}

/// A task as stored in the calendar. Times are seconds since the epoch.
#[derive(Debug, Clone, PartialEq, Eq)]
pub struct CalendarTask {
    /// Task id (UID).
    pub id: String,
    /// Summary line.
    pub summary: String,
    /// Longer description.
    pub description: Option<String>,
    /// Priority.
    pub priority: CalDavPriority,
    /// Status.
    pub status: CalDavStatus,
    /// Due time.
    pub due: Option<i64>,
    /// Creation time.
    pub created: Option<i64>,
    /// Last modification time.
    pub last_modified: Option<i64>,
    /// Completion time.
    pub completed: Option<i64>,
}

/// A task as the application shows it. Times are seconds since the epoch.
#[derive(Debug, Clone, PartialEq, Eq)]
pub struct Task {
    /// Task id (UID).
    pub id: String,
    /// Summary line.
    pub summary: String,
    /// Longer description.
    pub description: Option<String>,
    /// Priority.
    pub priority: Priority,
    /// Status.
    pub status: TaskStatus,
    /// Due time.
    pub due_date: Option<i64>,
    /// Creation time.
    pub created_at: i64,
    /// Last modification time.
    pub updated_at: i64,
    /// Completion time.
    pub completed_at: Option<i64>,
    /// Calendar the task belongs to, if known.
    pub calendar: Option<String>,
}

/// The task shown for a stored task at time `now`: the same fields with
/// priority and status converted; a missing creation or modification time
/// reads as `now`; the calendar is not known.
pub open spec fn task_of(t: CalendarTask, now: i64) -> Task {
    Task {
        id: t.id,
        summary: t.summary,
        description: t.description,
        priority: priority_from(t.priority),
        status: status_from(t.status),
        due_date: t.due,
        created_at: match t.created {
            Some(c) => c,
            None => now,
        },
        updated_at: match t.last_modified {
            Some(m) => m,
            None => now,
        },
        completed_at: t.completed,
        calendar: None,
    }
}

/// The task shown for a stored task (see `task_of`).
pub fn map_task(task: CalendarTask, now: i64) -> (r: Task)
    ensures
        r == task_of(task, now),
{
    Task {
        id: task.id,
        summary: task.summary,
        description: task.description,
        priority: map_priority_from_caldav(task.priority),
        status: map_status_from_caldav(task.status),
        due_date: task.due,
        created_at: match task.created {
            Some(c) => c,
            None => now,
        },
        updated_at: match task.last_modified {
            Some(m) => m,
            None => now,
        },
        completed_at: task.completed,
        calendar: None,
    }
}

/// Which tasks to list.
#[derive(Debug, Clone, Copy, PartialEq, Eq, Structural)]
pub struct TaskQuery {
    /// Whether completed tasks are listed too.
    pub include_completed: bool,
    /// Only tasks with this status.
    pub status: Option<TaskStatus>,
    /// Only tasks with this priority.
    pub priority: Option<Priority>,
    /// Only tasks due at or before this time (tasks without a due time pass).
    pub due_before: Option<i64>,
    /// At most this many tasks.
    pub limit: Option<usize>,
}

/// Whether a stored status counts as done.
pub open spec fn is_done(s: CalDavStatus) -> bool {
    s == CalDavStatus::Completed
}

/// Whether a query selects a stored task.
pub open spec fn task_selected(q: TaskQuery, t: CalendarTask) -> bool {
    &&& q.include_completed || !is_done(t.status)
    &&& (q.status matches Some(s) ==> status_from(t.status) == s)
    &&& (q.priority matches Some(p) ==> priority_from(t.priority) == p)
    &&& (q.due_before matches Some(b) ==> (t.due matches Some(d) ==> d <= b))
}

/// Whether a query selects a stored task (see `task_selected`).
pub fn task_matches(query: &TaskQuery, task: &CalendarTask) -> (r: bool)
    ensures
        r == task_selected(*query, *task),
{
    if !query.include_completed && task.status == CalDavStatus::Completed {
        return false;
    }
    match query.status {
        Some(s) => {
            if map_status_from_caldav(task.status) != s {
                return false;
            }
        },
        None => {},
    }
    match query.priority {
        Some(p) => {
            if map_priority_from_caldav(task.priority) != p {
                return false;
            }
        },
        None => {},
    }
    match (query.due_before, task.due) {
        (Some(b), Some(d)) => d <= b,
        _ => true,
    }
}

/// The tasks a query selects, in their order.
pub open spec fn selected(q: TaskQuery, ts: Seq<CalendarTask>) -> Seq<CalendarTask>
    decreases ts.len(),
{
    if ts.len() == 0 {
        ts
    } else if task_selected(q, ts.last()) {
        selected(q, ts.drop_last()).push(ts.last())
    } else {
        selected(q, ts.drop_last())
    }
}

/// The tasks a query lists: those it selects, cut to its limit.
pub open spec fn listed(q: TaskQuery, ts: Seq<CalendarTask>) -> Seq<CalendarTask> {
    match q.limit {
        Some(n) => if selected(q, ts).len() > n {
            selected(q, ts).take(n as int)
        } else {
            selected(q, ts)
        },
        None => selected(q, ts),
    }
}

/// The stored tasks a query selects, in their order (see `selected`).
pub fn filter_tasks(tasks: Vec<CalendarTask>, query: &TaskQuery) -> (r: Vec<CalendarTask>)
    ensures
        r@ == selected(*query, tasks@),
{
    let mut out: Vec<CalendarTask> = Vec::new();
    let mut i: usize = 0;
    while i < tasks.len()
        invariant
            i <= tasks@.len(),
            out@ == selected(*query, tasks@.take(i as int)),
        decreases tasks@.len() - i,
    {
        proof {
            assert(tasks@.take(i + 1).drop_last() =~= tasks@.take(i as int));
        }
        if task_matches(query, &tasks[i]) {
            out.push(tasks[i].copy_task());
        }
        i = i + 1;
    }
    proof {
        assert(tasks@.take(i as int) =~= tasks@);
    }
    out
}

/// The tasks shown for a query at time `now`: the stored tasks it lists (see
/// `listed`), each shown by `task_of`, in their order.
pub fn list_selection(tasks: Vec<CalendarTask>, query: &TaskQuery, now: i64) -> (r: Vec<Task>)
    ensures
        r@.len() == listed(*query, tasks@).len(),
        forall|k: int| 0 <= k < r@.len() ==> #[trigger] r@[k] == task_of(listed(*query, tasks@)[k], now),
{
    let mut kept = filter_tasks(tasks, query);
    match query.limit {
        Some(n) => {
            if kept.len() > n {
                kept.truncate(n);
            }
        },
        None => {},
    }
    let ghost chosen = kept@;
    let mut out: Vec<Task> = Vec::new();
    let mut i: usize = 0;
    while i < kept.len()
        invariant
            i <= kept@.len(),
            kept@ == chosen,
            out@.len() == i,
            forall|k: int| 0 <= k < i ==> #[trigger] out@[k] == task_of(chosen[k], now),
        decreases kept@.len() - i,
    {
        let t = map_task(kept[i].copy_task(), now);
        out.push(t);
        i = i + 1;
    }
    out
}

/// Index of the first stored task with the given id, if any.
pub open spec fn first_with_id(ts: Seq<CalendarTask>, id: Seq<char>) -> Option<int>
    decreases ts.len(),
{
    if ts.len() == 0 {
        None
    } else if ts[0].id@ == id {
        Some(0)
    } else {
        match first_with_id(ts.drop_first(), id) {
            Some(i) => Some(i + 1),
            None => None,
        }
    }
}

proof fn lemma_first_with_id(ts: Seq<CalendarTask>, id: Seq<char>, k: int)
    requires
        0 <= k <= ts.len(),
        forall|j: int| 0 <= j < k ==> ts[j].id@ != id,
    ensures
        k == ts.len() ==> first_with_id(ts, id) is None,
        k < ts.len() && ts[k].id@ == id ==> first_with_id(ts, id) == Some(k),
    decreases k,
{
    if k > 0 {
        lemma_first_with_id(ts.drop_first(), id, k - 1);
    }
}

/// The first stored task with the given id.
pub fn find_task(tasks: &Vec<CalendarTask>, task_id: &str) -> (r: Option<CalendarTask>)
    ensures
        match first_with_id(tasks@, task_id@) {
            Some(i) => r == Some(tasks@[i]),
            None => r is None,
        },
{
    let mut i: usize = 0;
    while i < tasks.len()
        invariant
            i <= tasks@.len(),
            forall|j: int| 0 <= j < i ==> tasks@[j].id@ != task_id@,
        decreases tasks@.len() - i,
    {
        if text::str_eq(tasks[i].id.as_str(), task_id) {
            proof {
                lemma_first_with_id(tasks@, task_id@, i as int);
            }
            return Some(tasks[i].copy_task());
        }
        i = i + 1;
    }
    proof {
        lemma_first_with_id(tasks@, task_id@, i as int);
    }
    None
}

/// The task with the given id, shown at time `now`, if there is one.
pub fn get_task_in(tasks: &Vec<CalendarTask>, task_id: &str, now: i64) -> (r: Option<Task>)
    ensures
        match first_with_id(tasks@, task_id@) {
            Some(i) => r == Some(task_of(tasks@[i], now)),
            None => r is None,
        },
{
    match find_task(tasks, task_id) {
        Some(t) => Some(map_task(t, now)),
        None => None,
    }
}

/// Changes to a task; fields left `None` stay as they are.
#[derive(Debug, Clone, PartialEq, Eq)]
pub struct TaskUpdates {
    /// New summary.
    pub summary: Option<String>,
    /// New description (`Some(None)` removes it).
    pub description: Option<Option<String>>,
    /// New priority.
    pub priority: Option<Priority>,
    /// New status.
    pub status: Option<TaskStatus>,
    /// New due time (`Some(None)` removes it).
    pub due_date: Option<Option<i64>>,
}

/// The stored task after applying updates at time `now`: the given fields
/// replaced (priority and status converted for storing), the modification
/// time set to `now`, and the completion time set to `now` when the new
/// status is `Completed`.
pub open spec fn updated(t: CalendarTask, u: TaskUpdates, now: i64) -> CalendarTask {
    CalendarTask {
        id: t.id,
        summary: match u.summary {
            Some(s) => s,
            None => t.summary,
        },
        description: match u.description {
            Some(d) => d,
            None => t.description,
        },
        priority: match u.priority {
            Some(p) => priority_to(p),
            None => t.priority,
        },
        status: match u.status {
            Some(s) => status_to(s),
            None => t.status,
        },
        due: match u.due_date {
            Some(d) => d,
            None => t.due,
        },
        created: t.created,
        last_modified: Some(now),
        completed: if u.status == Some(TaskStatus::Completed) {
            Some(now)
        } else {
            t.completed
        },
    }
}

/// Applies updates to a stored task (see `updated`).
pub fn apply_updates(task: CalendarTask, updates: TaskUpdates, now: i64) -> (r: CalendarTask)
    ensures
        r == updated(task, updates, now),
{
    let mut t = task;
    match updates.summary {
        Some(s) => {
            t.summary = s;
        },
        None => {},
    }
    match updates.description {
        Some(d) => {
            t.description = d;
        },
        None => {},
    }
    match updates.priority {
        Some(p) => {
            t.priority = map_priority_to_caldav(p);
        },
        None => {},
    }
    match updates.status {
        Some(s) => {
            t.status = map_status_to_caldav(s);
            if s == TaskStatus::Completed {
                t.completed = Some(now);
            }
        },
        None => {},
    }
    match updates.due_date {
        Some(d) => {
            t.due = d;
        },
        None => {},
    }
    t.last_modified = Some(now);
    t
}

/// The first stored task with the given id after applying the updates at
/// time `now`, or a not-found error naming the id when there is none.
pub fn update_task_in(tasks: &Vec<CalendarTask>, task_id: &str, updates: TaskUpdates, now: i64) -> (r:
    Result<CalendarTask, ApplicationError>)
    ensures
        match first_with_id(tasks@, task_id@) {
            Some(i) => r == Ok::<CalendarTask, ApplicationError>(updated(tasks@[i], updates, now)),
            None => r matches Err(ApplicationError::NotFound(m)) && m@ == task_not_found_text(
                task_id@,
            ),
        },
{
    match find_task(tasks, task_id) {
        Some(t) => Ok(apply_updates(t, updates, now)),
        None => Err(task_not_found(task_id)),
    }
}

/// What a user gives for a new task.
#[derive(Debug, Clone, PartialEq, Eq)]
pub struct NewTask {
    /// Summary line.
    pub summary: String,
    /// Longer description.
    pub description: Option<String>,
    /// Due time.
    pub due_date: Option<i64>,
    /// Priority.
    pub priority: Priority,
}

/// The stored task for a new task created at time `now` under the id `id`:
/// not started, created and modified at `now`, not completed.
pub open spec fn created_task(id: String, n: NewTask, now: i64) -> CalendarTask {
    CalendarTask {
        id,
        summary: n.summary,
        description: n.description,
        priority: priority_to(n.priority),
        status: CalDavStatus::NeedsAction,
        due: n.due_date,
        created: Some(now),
        last_modified: Some(now),
        completed: None,
    }
}

/// The stored task for a new task under the id `id` (see `created_task`).
pub fn new_task(id: String, task: NewTask, now: i64) -> (t: CalendarTask)
    ensures
        t == created_task(id, task, now),
{
    CalendarTask {
        id,
        summary: task.summary,
        description: task.description,
        priority: map_priority_to_caldav(task.priority),
        status: CalDavStatus::NeedsAction,
        due: task.due_date,
        created: Some(now),
        last_modified: Some(now),
        completed: None,
    }
}

/// The stored task for a new task under a fresh random id of 36 characters
/// (see `created_task`).
pub fn create_task(task: NewTask, now: i64) -> (t: CalendarTask)
    ensures
        t.id@.len() == 36,
        t == created_task(t.id, task, now),
{
    let id = ids::fresh_uuid();
    new_task(id, task, now)
}

proof fn lemma_selected_obey_query(q: TaskQuery, ts: Seq<CalendarTask>)
    ensures
        selected(q, ts).len() <= ts.len(),
        forall|k: int| 0 <= k < selected(q, ts).len() ==> task_selected(q, #[trigger] selected(q, ts)[k]),
    decreases ts.len(),
{
    if ts.len() > 0 {
        lemma_selected_obey_query(q, ts.drop_last());
    }
}

/// Every task a query lists is one the query selects, no more tasks are
/// listed than stored, and never more than the query's limit.
pub proof fn lemma_listed_tasks_obey_query(q: TaskQuery, ts: Seq<CalendarTask>)
    ensures
        listed(q, ts).len() <= ts.len(),
        forall|k: int| 0 <= k < listed(q, ts).len() ==> task_selected(q, #[trigger] listed(q, ts)[k]),
        q.limit matches Some(n) ==> listed(q, ts).len() <= n,
{
    lemma_selected_obey_query(q, ts);
    match q.limit {
        Some(n) => {
            if selected(q, ts).len() > n {
                assert forall|k: int| 0 <= k < listed(q, ts).len() implies task_selected(
                    q,
                    #[trigger] listed(q, ts)[k],
                ) by {
                    assert(listed(q, ts)[k] == selected(q, ts)[k]);
                }
            }
        },
        None => {},
    }
}

/// An update that sets the status to `Completed` shows the task completed at
/// the time of the update, and later modified then too.
pub proof fn lemma_completing_marks_done(t: CalendarTask, u: TaskUpdates, now: i64, shown_at: i64)
    requires
        u.status == Some(TaskStatus::Completed),
    ensures
        task_of(updated(t, u, now), shown_at).status == TaskStatus::Completed,
        task_of(updated(t, u, now), shown_at).completed_at == Some(now),
        task_of(updated(t, u, now), shown_at).updated_at == now,
{
}

impl CalendarTask {
    fn copy_task(&self) -> (c: CalendarTask)
        ensures
            c == *self,
    {
        CalendarTask {
            id: self.id.clone(),
            summary: self.summary.clone(),
            description: match &self.description {
                Some(d) => Some(d.clone()),
                None => None,
            },
            priority: self.priority,
            status: self.status,
            due: self.due,
            created: self.created,
            last_modified: self.last_modified,
            completed: self.completed,
        }
    }
}

/// The due-date filter only drops tasks that have a due time after the
/// bound: a task without a due time is selected by a query exactly when the
/// same query without a due-date bound selects it, and a task with a due
/// time is selected exactly when that query selects it and it is due at or
/// before the bound.
pub proof fn lemma_due_filter_keeps_undated_tasks(q: TaskQuery, t: CalendarTask)
    ensures
        t.due is None ==> task_selected(q, t) == task_selected(
            TaskQuery { due_before: None, ..q },
            t,
        ),
        (q.due_before matches Some(b) && t.due matches Some(d)) ==> task_selected(q, t) == (
        task_selected(TaskQuery { due_before: None, ..q }, t) && t.due->Some_0 <= q.due_before->Some_0),
{
}

} // verus!
