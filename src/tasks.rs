//! Analysis tasks of a report: their status taxonomy, the polling stop rule
//! and the text shown for each profile.
use vstd::prelude::*;

verus! {

/// Where one profile's analysis of a report stands.
#[derive(Clone, Copy, PartialEq, Eq, Structural, Debug)]
pub enum TaskStatus {
    New,
    Pending,
    Clean,
    Detected,
    Timeout,
    Error,
}

/// The status that the service writes as `name`, if it is one it uses.
pub open spec fn status_named(name: Seq<char>) -> Option<TaskStatus> {
    if name == "new"@ {
        Some(TaskStatus::New)
    } else if name == "pending"@ {
        Some(TaskStatus::Pending)
    } else if name == "clean"@ {
        Some(TaskStatus::Clean)
    } else if name == "detected"@ {
        Some(TaskStatus::Detected)
    } else if name == "timeout"@ {
        Some(TaskStatus::Timeout)
    } else if name == "error"@ {
        Some(TaskStatus::Error)
    } else {
        None
    }
}

/// Whether two strings hold the same characters.
fn same_text(a: &str, b: &str) -> (r: bool)
    ensures
        r == (a@ == b@),
{
    let x: String = a.to_owned();
    let y: String = b.to_owned();
    x == y
}

impl TaskStatus {
    /// A task that has not reached a final verdict yet.
    pub open spec fn spec_is_pending(self) -> bool {
        self == TaskStatus::New || self == TaskStatus::Pending
    }

    #[verifier::when_used_as_spec(spec_is_pending)]
    pub fn is_pending(self) -> (r: bool)
        ensures
            r == self.spec_is_pending(),
    {
        match self {
            TaskStatus::New | TaskStatus::Pending => true,
            _ => false,
        }
    }

    /// Reads the status from the name the service gives it; `None` for a
    /// name the service does not use.
    pub fn from_name(name: &str) -> (r: Option<TaskStatus>)
        ensures
            r == status_named(name@),
    {
        if same_text(name, "new") {
            Some(TaskStatus::New)
        } else if same_text(name, "pending") {
            Some(TaskStatus::Pending)
        } else if same_text(name, "clean") {
            Some(TaskStatus::Clean)
        } else if same_text(name, "detected") {
            Some(TaskStatus::Detected)
        } else if same_text(name, "timeout") {
            Some(TaskStatus::Timeout)
        } else if same_text(name, "error") {
            Some(TaskStatus::Error)
        } else {
            None
        }
    }
}


/// One profile's analysis of one report. Times are milliseconds since the
/// Unix epoch, UTC.
pub struct Task {
    pub id: i64,
    pub report_id: i64,
    pub profile_id: i64,
    pub created_when: i64,
    pub completed_when: Option<i64>,
    pub status: TaskStatus,
    pub message: Option<String>,
}

/// Body of a successful task listing for one report.
pub struct TasksResponse {
    pub tasks: Vec<Task>,
}

/// Every task has reached a final verdict (true of an empty list).
pub open spec fn all_settled(tasks: Seq<Task>) -> bool {
    forall|i: int| 0 <= i < tasks.len() ==> !(#[trigger] tasks[i]).status.is_pending()
}

/// Whether some task is still waiting for, or under, analysis.
pub fn has_pending(tasks: &Vec<Task>) -> (r: bool)
    ensures
        r == !all_settled(tasks@),
{
    let mut i: usize = 0;
    while i < tasks.len()
        invariant
            0 <= i <= tasks@.len(),
            forall|j: int| 0 <= j < i ==> !(#[trigger] tasks@[j]).status.is_pending(),
        decreases tasks@.len() - i,
    {
        if tasks[i].status.is_pending() {
            return true;
        }
        i = i + 1;
    }
    false
}

/// The first task of `tasks` that belongs to the profile `profile_id`.
pub open spec fn task_for(tasks: Seq<Task>, profile_id: i64) -> Option<Task>
    decreases tasks.len(),
{
    if tasks.len() == 0 {
        None
    } else if tasks[0].profile_id == profile_id {
        Some(tasks[0])
    } else {
        task_for(tasks.drop_first(), profile_id)
    }
}

/// The text shown for a task: a detection shows the engine's message.
pub open spec fn status_text(status: TaskStatus, message: Option<String>) -> Seq<char> {
    match status {
        TaskStatus::New => "Waiting for worker.."@,
        TaskStatus::Pending => "Processing.."@,
        TaskStatus::Clean => "Clean"@,
        TaskStatus::Detected => match message {
            Some(m) => m@,
            None => "Detected"@,
        },
        TaskStatus::Timeout => "Timeout"@,
        TaskStatus::Error => "Error"@,
    }
}

/// The text shown beside a profile: "Idle" before any task list arrived,
/// nothing when the list holds no task of the profile.
pub open spec fn profile_status_text(tasks: Option<Seq<Task>>, profile_id: i64) -> Seq<char> {
    match tasks {
        None => "Idle"@,
        Some(ts) => match task_for(ts, profile_id) {
            None => Seq::empty(),
            Some(t) => status_text(t.status, t.message),
        },
    }
}

impl Task {
    /// The label shown for the status of a task.
    pub fn status_text(&self) -> (r: String)
        ensures
            r@ == status_text(self.status, self.message),
    {
        match self.status {
            TaskStatus::New => "Waiting for worker..".to_owned(),
            TaskStatus::Pending => "Processing..".to_owned(),
            TaskStatus::Clean => "Clean".to_owned(),
            TaskStatus::Detected => match &self.message {
                Some(m) => m.clone(),
                None => "Detected".to_owned(),
            },
            TaskStatus::Timeout => "Timeout".to_owned(),
            TaskStatus::Error => "Error".to_owned(),
        }
    }
}

/// The text shown beside the profile `profile_id`, given the last task list
/// fetched (if any).
pub fn profile_status(tasks: &Option<Vec<Task>>, profile_id: i64) -> (r: String)
    ensures
        r@ == profile_status_text(
            match tasks {
                Some(v) => Some(v@),
                None => None,
            },
            profile_id,
        ),
{
    match tasks {
        None => "Idle".to_owned(),
        Some(ts) => {
            let mut i: usize = 0;
            assert(ts@.subrange(0, ts@.len() as int) =~= ts@);
            while i < ts.len()
                invariant
                    *tasks == Some(*ts),
                    0 <= i <= ts@.len(),
                    task_for(ts@, profile_id) == task_for(ts@.subrange(i as int, ts@.len() as int), profile_id),
                decreases ts@.len() - i,
            {
                assert(ts@.subrange(i as int, ts@.len() as int).drop_first()
                    =~= ts@.subrange(i + 1, ts@.len() as int));
                assert(ts@.subrange(i as int, ts@.len() as int)[0] == ts@[i as int]);
                if ts[i].profile_id == profile_id {
                    return ts[i].status_text();
                }
                i = i + 1;
            }
            String::new()
        },
    }
}

} // verus!
