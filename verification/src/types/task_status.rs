use vstd::prelude::*;
use crate::text::str_equal;

verus! {

/// The life cycle of a task: it is created pending, is started, and is
/// completed.
#[derive(Debug, Clone, Copy, PartialEq, Eq, Structural)]
pub enum TaskStatus {
    Pending,
    InProgress,
    Completed,
}

/// The text under which a status is stored in the database.
pub open spec fn status_text(status: TaskStatus) -> Seq<char> {
    match status {
        TaskStatus::Pending => "pending"@,
        TaskStatus::InProgress => "in_progress"@,
        TaskStatus::Completed => "completed"@,
    }
}

/// The status that a stored text names, if it names one.
pub open spec fn status_from_text(text: Seq<char>) -> Option<TaskStatus> {
    if text == "pending"@ {
        Some(TaskStatus::Pending)
    } else if text == "in_progress"@ {
        Some(TaskStatus::InProgress)
    } else if text == "completed"@ {
        Some(TaskStatus::Completed)
    } else {
        None
    }
}

/// The moves that the life cycle allows: a pending task may be started and
/// a started task may be completed; nothing else.
pub open spec fn transition_allowed(from: TaskStatus, to: TaskStatus) -> bool {
    ||| (from == TaskStatus::Pending && to == TaskStatus::InProgress)
    ||| (from == TaskStatus::InProgress && to == TaskStatus::Completed)
}

/// How far along the life cycle a status is.
pub open spec fn stage(status: TaskStatus) -> int {
    match status {
        TaskStatus::Pending => 0,
        TaskStatus::InProgress => 1,
        TaskStatus::Completed => 2,
    }
}

impl TaskStatus {
    /// Reads a status from its stored text.
    pub fn from_str(s: &str) -> (status: Option<Self>)
        ensures
            status == status_from_text(s@),
    {
        if str_equal(s, "pending") {
            Some(TaskStatus::Pending)
        } else if str_equal(s, "in_progress") {
            Some(TaskStatus::InProgress)
        } else if str_equal(s, "completed") {
            Some(TaskStatus::Completed)
        } else {
            None
        }
    }

    /// The stored text of this status.
    pub fn to_str(&self) -> (text: &str)
        ensures
            text@ == status_text(*self),
    {
        match self {
            TaskStatus::Pending => "pending",
            TaskStatus::InProgress => "in_progress",
            TaskStatus::Completed => "completed",
        }
    }

    /// The stored text of this status, as an owned string; it is always
    /// present.
    pub fn as_string(&self) -> (text: Option<String>)
        ensures
            text is Some,
            text->0@ == status_text(*self),
    {
        Some(self.to_str().to_owned())
    }

    /// Whether the life cycle allows moving from this status to `new_status`.
    pub fn can_transition_to(&self, new_status: &TaskStatus) -> (allowed: bool)
        ensures
            allowed == transition_allowed(*self, *new_status),
    {
        match (self, new_status) {
            (TaskStatus::Pending, TaskStatus::InProgress) => true,
            (TaskStatus::InProgress, TaskStatus::Completed) => true,
            _ => false,
        }
    }
}

/// Reading back the stored text of a status gives that status.
pub proof fn lemma_status_text_round_trip(status: TaskStatus)
    ensures
        status_from_text(status_text(status)) == Some(status),
{
    reveal_strlit("pending");
    reveal_strlit("in_progress");
    reveal_strlit("completed");
    assert("pending"@.len() == 7);
    assert("in_progress"@.len() == 11);
    assert("completed"@.len() == 9);
}

/// A text that reads as a status is exactly that status's stored text: no
/// two texts name the same status.
pub proof fn lemma_status_text_unique(text: Seq<char>)
    ensures
        status_from_text(text) matches Some(status) ==> status_text(status) == text,
{
}

/// Every allowed move goes exactly one stage forward.
pub proof fn lemma_transition_moves_one_stage(from: TaskStatus, to: TaskStatus)
    ensures
        transition_allowed(from, to) ==> stage(to) == stage(from) + 1,
{
}

/// No status may move to itself, a completed task may not move at all, and
/// no move leads back to pending.
pub proof fn lemma_transition_no_return(status: TaskStatus)
    ensures
        !transition_allowed(status, status),
        !transition_allowed(TaskStatus::Completed, status),
        !transition_allowed(status, TaskStatus::Pending),
{
}

/// From any status at most one move is allowed.
pub proof fn lemma_transition_deterministic(from: TaskStatus, a: TaskStatus, b: TaskStatus)
    requires
        transition_allowed(from, a),
        transition_allowed(from, b),
    ensures
        a == b,
{
}

/// Two allowed moves in a row lead from pending to completed, and there is
/// no third.
pub proof fn lemma_transition_path(a: TaskStatus, b: TaskStatus, c: TaskStatus)
    requires
        transition_allowed(a, b),
        transition_allowed(b, c),
    ensures
        a == TaskStatus::Pending,
        b == TaskStatus::InProgress,
        c == TaskStatus::Completed,
        forall|d: TaskStatus| !transition_allowed(c, d),
{
}

} // verus!
