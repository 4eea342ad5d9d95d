//! The task model. A point in time is held as whole seconds since the Unix epoch
//! (1970-01-01 00:00:00 UTC); negative values lie before it.

use std::collections::HashSet;
use vstd::prelude::*;

verus! {

/// A list of tasks, as it is saved and loaded.
#[derive(Debug, Clone)]
pub struct Tasks {
    pub tasks: Vec<Task>,
}

impl Tasks {
    /// An empty list.
    pub fn new() -> (t: Tasks)
        ensures
            t.tasks@.len() == 0,
    {
        Tasks { tasks: Vec::new() }
    }

    /// Adds the tasks of a loaded list after those already held, in their order.
    pub fn append_loaded(&mut self, loaded: Tasks)
        ensures
            final(self).tasks@ == old(self).tasks@ + loaded.tasks@,
    {
        let mut loaded = loaded;
        self.tasks.append(&mut loaded.tasks);
    }
}

/// One task.
#[derive(Debug, Clone)]
pub struct Task {
    pub title: String,
    pub description: Option<String>,
    /// When the task is due, in seconds since the Unix epoch.
    pub due_date: Option<i64>,
    pub state: TaskState,
    pub priority: Option<TaskPriority>,
    pub time_estimation_minutes: Option<u32>,
    pub tags: Option<HashSet<String>>,
    /// When the task was created, in seconds since the Unix epoch.
    pub created_at: Option<i64>,
    /// When the task was last changed, in seconds since the Unix epoch.
    pub modified_at: Option<i64>,
    /// When the task was deleted, in seconds since the Unix epoch.
    pub deleted_at: Option<i64>,
}

/// Where a task stands.
#[derive(Debug, Clone, Copy, PartialEq, Eq, Structural)]
pub enum TaskState {
    Pending,
    NeedInfo,
    InProgress,
    Completed,
    OnHold,
    Cancelled,
}

impl Default for TaskState {
    /// A task starts out pending.
    fn default() -> (s: TaskState)
        ensures
            s == TaskState::Pending,
    {
        TaskState::Pending
    }
}

/// How urgent a task is.
#[derive(Debug, Clone, Copy, PartialEq, Eq, Structural)]
pub enum TaskPriority {
    Low,
    Medium,
    High,
    Critical,
}

/// The name under which a priority is shown.
pub open spec fn priority_name(p: TaskPriority) -> Seq<char> {
    match p {
        TaskPriority::Low => "Low"@,
        TaskPriority::Medium => "Medium"@,
        TaskPriority::High => "High"@,
        TaskPriority::Critical => "Critical"@,
    }
}

impl TaskPriority {
    /// The priority's name: `Low`, `Medium`, `High` or `Critical`.
    pub fn to_string(&self) -> (s: String)
        ensures
            s@ == priority_name(*self),
    {
        match self {
            TaskPriority::Low => "Low".to_owned(),
            TaskPriority::Medium => "Medium".to_owned(),
            TaskPriority::High => "High".to_owned(),
            TaskPriority::Critical => "Critical".to_owned(),
        }
    }
}

#[verifier::external_type_specification]
#[verifier::external_body]
pub struct ExSystemTime(std::time::SystemTime);

/// A reading of the system clock against the Unix epoch: on which side of the epoch
/// it lies, and how far from it, in whole seconds and the nanoseconds beyond them.
#[derive(Debug, Clone, Copy, PartialEq, Eq, Structural)]
pub struct ClockReading {
    pub after_epoch: bool,
    pub secs: u64,
    pub nanos: u32,
}

/// Reads the system clock with `std::time::SystemTime::now`. Nothing is claimed of
/// the reading: it is whatever the clock says.
#[verifier::external_body]
fn system_now() -> (t: std::time::SystemTime) {
    std::time::SystemTime::now()
}

/// Measures a clock reading against `UNIX_EPOCH` with `SystemTime::duration_since`:
/// an `Ok` duration lies at or after the epoch, the duration of an `Err` lies before
/// it. Claimed: the nanoseconds are below one billion (`Duration::subsec_nanos`
/// gives the fractional part of a second). What the reading is, is not claimed.
#[verifier::external_body]
fn since_epoch(t: &std::time::SystemTime) -> (r: ClockReading)
    ensures
        r.nanos < 1_000_000_000,
{
    match t.duration_since(std::time::UNIX_EPOCH) {
        Ok(d) => ClockReading { after_epoch: true, secs: d.as_secs(), nanos: d.subsec_nanos() },
        Err(e) => ClockReading {
            after_epoch: false,
            secs: e.duration().as_secs(),
            nanos: e.duration().subsec_nanos(),
        },
    }
}

/// The whole seconds of a clock reading since the Unix epoch, rounded down: a
/// reading before the epoch with a fraction of a second left over falls in the
/// second before.
pub open spec fn reading_seconds(r: ClockReading) -> int {
    if r.after_epoch {
        r.secs as int
    } else if r.nanos == 0 {
        -(r.secs as int)
    } else {
        -(r.secs as int) - 1
    }
}

/// A number held in an `i64`: the nearest end of its range where it lies outside.
pub open spec fn clamp_to_i64(x: int) -> i64 {
    if x < i64::MIN {
        i64::MIN
    } else if x > i64::MAX {
        i64::MAX
    } else {
        x as i64
    }
}

/// The time stamp of a clock reading: its whole seconds since the Unix epoch, rounded
/// down. A task holds its times in an `i64`; a reading further than that range from
/// the epoch (some 292 billion years) is held at the nearest end of it.
pub fn epoch_seconds(r: ClockReading) -> (secs: i64)
    ensures
        secs == clamp_to_i64(reading_seconds(r)),
{
    let whole: i128 = if r.after_epoch {
        r.secs as i128
    } else if r.nanos == 0 {
        -(r.secs as i128)
    } else {
        -(r.secs as i128) - 1
    };
    if whole < i64::MIN as i128 {
        i64::MIN
    } else if whole > i64::MAX as i128 {
        i64::MAX
    } else {
        whole as i64
    }
}

/// The time stamp given to a task whose saved form has none: the current time of the
/// system clock, as [`epoch_seconds`] reads it. Which time that is, is the clock's.
pub fn default_system_time() -> (t: Option<i64>)
    ensures
        t is Some,
{
    let reading = since_epoch(&system_now());
    Some(epoch_seconds(reading))
}

/// The names under which the priorities are shown.
pub proof fn lemma_priority_names()
    ensures
        priority_name(TaskPriority::Low) == "Low"@,
        priority_name(TaskPriority::Medium) == "Medium"@,
        priority_name(TaskPriority::High) == "High"@,
        priority_name(TaskPriority::Critical) == "Critical"@,
{
}

/// The seconds of a clock reading are the whole seconds since the epoch, rounded
/// down: they lie at most one second before the exact time of the reading, in
/// nanoseconds, and never after it.
pub proof fn lemma_reading_rounds_down(r: ClockReading)
    requires
        r.nanos < 1_000_000_000,
    ensures
        ({
            let exact: int = if r.after_epoch {
                r.secs * 1_000_000_000 + r.nanos
            } else {
                -(r.secs * 1_000_000_000 + r.nanos)
            };
            reading_seconds(r) * 1_000_000_000 <= exact < (reading_seconds(r) + 1) * 1_000_000_000
        }),
{
}

/// A number within the range of `i64` is held as it is; one outside it is held at
/// the nearest end.
pub proof fn lemma_clamp_keeps_what_fits(x: int)
    ensures
        i64::MIN <= x <= i64::MAX ==> clamp_to_i64(x) == x,
        x < i64::MIN ==> clamp_to_i64(x) == i64::MIN,
        x > i64::MAX ==> clamp_to_i64(x) == i64::MAX,
{
}

} // verus!
