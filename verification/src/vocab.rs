//! The closed vocabularies of the enumerated fields, and the lower-case
//! tokens under which they are written and read.

use vstd::prelude::*;
use vstd::string::*;
use crate::text::same_text;

verus! {

/// Lifecycle state of a workstream.
#[derive(Clone, Copy, Debug, PartialEq, Eq, Structural)]
pub enum WorkstreamStatus {
    Planning,
    Active,
    Paused,
    Completed,
    Cancelled,
}

/// Progress state of a project task.
#[derive(Clone, Copy, Debug, PartialEq, Eq, Structural)]
pub enum TaskStatus {
    Backlog,
    ToDo,
    InProgress,
    Review,
    Done,
}

/// Urgency of a workstream or a task.
#[derive(Clone, Copy, Debug, PartialEq, Eq, Structural)]
pub enum Priority {
    Low,
    Medium,
    High,
    Critical,
}

/// How often a habit is meant to be performed.
#[derive(Clone, Debug, PartialEq, Eq)]
pub enum HabitFrequency {
    Daily,
    Weekly { target_days: u8 },
    Custom { pattern: String },
}

/// Kind of a journal entry.
#[derive(Clone, Copy, Debug, PartialEq, Eq, Structural)]
pub enum JournalEntryType {
    Note,
    Update,
    Reflection,
    Meeting,
}

impl WorkstreamStatus {
    /// The token that stands for this status.
    pub open spec fn token_text(self) -> Seq<char> {
        match self {
            WorkstreamStatus::Planning => "planning"@,
            WorkstreamStatus::Active => "active"@,
            WorkstreamStatus::Paused => "paused"@,
            WorkstreamStatus::Completed => "completed"@,
            WorkstreamStatus::Cancelled => "cancelled"@,
        }
    }

    /// The status that a token stands for; the match is exact and
    /// case-sensitive.
    pub open spec fn of_text(s: Seq<char>) -> Option<WorkstreamStatus> {
        if s == "planning"@ {
            Some(WorkstreamStatus::Planning)
        } else if s == "active"@ {
            Some(WorkstreamStatus::Active)
        } else if s == "paused"@ {
            Some(WorkstreamStatus::Paused)
        } else if s == "completed"@ {
            Some(WorkstreamStatus::Completed)
        } else if s == "cancelled"@ {
            Some(WorkstreamStatus::Cancelled)
        } else {
            None
        }
    }

    /// Writes the status as its token.
    pub fn token(&self) -> (r: &'static str)
        ensures
            r@ == self.token_text(),
    {
        match self {
            WorkstreamStatus::Planning => "planning",
            WorkstreamStatus::Active => "active",
            WorkstreamStatus::Paused => "paused",
            WorkstreamStatus::Completed => "completed",
            WorkstreamStatus::Cancelled => "cancelled",
        }
    }

    /// Reads a token; anything but one of the tokens gives `None`.
    pub fn parse(s: &str) -> (r: Option<WorkstreamStatus>)
        ensures
            r == WorkstreamStatus::of_text(s@),
    {
        if same_text(s, "planning") {
            Some(WorkstreamStatus::Planning)
        } else if same_text(s, "active") {
            Some(WorkstreamStatus::Active)
        } else if same_text(s, "paused") {
            Some(WorkstreamStatus::Paused)
        } else if same_text(s, "completed") {
            Some(WorkstreamStatus::Completed)
        } else if same_text(s, "cancelled") {
            Some(WorkstreamStatus::Cancelled)
        } else {
            None
        }
    }

    /// A token is read back as the status it was written for, and only the
    /// five tokens are read at all.
    pub proof fn token_round_trip(self, s: Seq<char>)
        ensures
            WorkstreamStatus::of_text(self.token_text()) == Some(self),
            WorkstreamStatus::of_text(s) == Some(self) <==> s == self.token_text(),
    {
        reveal_strlit("planning");
        reveal_strlit("active");
        reveal_strlit("paused");
        reveal_strlit("completed");
        reveal_strlit("cancelled");
        assert("planning"@.len() == 8 && "active"@.len() == 6 && "paused"@.len() == 6);
        assert("completed"@.len() == 9 && "cancelled"@.len() == 9);
        assert("active"@[0] != "paused"@[0]);
        assert("completed"@[1] != "cancelled"@[1]);
    }
}

impl TaskStatus {
    /// The token that stands for this status.
    pub open spec fn token_text(self) -> Seq<char> {
        match self {
            TaskStatus::Backlog => "backlog"@,
            TaskStatus::ToDo => "todo"@,
            TaskStatus::InProgress => "inprogress"@,
            TaskStatus::Review => "review"@,
            TaskStatus::Done => "done"@,
        }
    }

    /// The status that a token stands for; the match is exact and
    /// case-sensitive.
    pub open spec fn of_text(s: Seq<char>) -> Option<TaskStatus> {
        if s == "backlog"@ {
            Some(TaskStatus::Backlog)
        } else if s == "todo"@ {
            Some(TaskStatus::ToDo)
        } else if s == "inprogress"@ {
            Some(TaskStatus::InProgress)
        } else if s == "review"@ {
            Some(TaskStatus::Review)
        } else if s == "done"@ {
            Some(TaskStatus::Done)
        } else {
            None
        }
    }

    /// Writes the status as its token.
    pub fn token(&self) -> (r: &'static str)
        ensures
            r@ == self.token_text(),
    {
        match self {
            TaskStatus::Backlog => "backlog",
            TaskStatus::ToDo => "todo",
            TaskStatus::InProgress => "inprogress",
            TaskStatus::Review => "review",
            TaskStatus::Done => "done",
        }
    }

    /// Reads a token; anything but one of the tokens gives `None`.
    pub fn parse(s: &str) -> (r: Option<TaskStatus>)
        ensures
            r == TaskStatus::of_text(s@),
    {
        if same_text(s, "backlog") {
            Some(TaskStatus::Backlog)
        } else if same_text(s, "todo") {
            Some(TaskStatus::ToDo)
        } else if same_text(s, "inprogress") {
            Some(TaskStatus::InProgress)
        } else if same_text(s, "review") {
            Some(TaskStatus::Review)
        } else if same_text(s, "done") {
            Some(TaskStatus::Done)
        } else {
            None
        }
    }

    /// A token is read back as the status it was written for, and only the
    /// five tokens are read at all.
    pub proof fn token_round_trip(self, s: Seq<char>)
        ensures
            TaskStatus::of_text(self.token_text()) == Some(self),
            TaskStatus::of_text(s) == Some(self) <==> s == self.token_text(),
    {
        reveal_strlit("backlog");
        reveal_strlit("todo");
        reveal_strlit("inprogress");
        reveal_strlit("review");
        reveal_strlit("done");
        assert("backlog"@.len() == 7 && "todo"@.len() == 4 && "inprogress"@.len() == 10);
        assert("review"@.len() == 6 && "done"@.len() == 4);
        assert("todo"@[0] != "done"@[0]);
    }
}

impl Priority {
    /// The token that stands for this priority.
    pub open spec fn token_text(self) -> Seq<char> {
        match self {
            Priority::Low => "low"@,
            Priority::Medium => "medium"@,
            Priority::High => "high"@,
            Priority::Critical => "critical"@,
        }
    }

    /// The priority that a token stands for; the match is exact and
    /// case-sensitive.
    pub open spec fn of_text(s: Seq<char>) -> Option<Priority> {
        if s == "low"@ {
            Some(Priority::Low)
        } else if s == "medium"@ {
            Some(Priority::Medium)
        } else if s == "high"@ {
            Some(Priority::High)
        } else if s == "critical"@ {
            Some(Priority::Critical)
        } else {
            None
        }
    }

    /// Writes the priority as its token.
    pub fn token(&self) -> (r: &'static str)
        ensures
            r@ == self.token_text(),
    {
        match self {
            Priority::Low => "low",
            Priority::Medium => "medium",
            Priority::High => "high",
            Priority::Critical => "critical",
        }
    }

    /// Reads a token; anything but one of the tokens gives `None`.
    pub fn parse(s: &str) -> (r: Option<Priority>)
        ensures
            r == Priority::of_text(s@),
    {
        if same_text(s, "low") {
            Some(Priority::Low)
        } else if same_text(s, "medium") {
            Some(Priority::Medium)
        } else if same_text(s, "high") {
            Some(Priority::High)
        } else if same_text(s, "critical") {
            Some(Priority::Critical)
        } else {
            None
        }
    }

    /// A token is read back as the priority it was written for, and only
    /// the four tokens are read at all.
    pub proof fn token_round_trip(self, s: Seq<char>)
        ensures
            Priority::of_text(self.token_text()) == Some(self),
            Priority::of_text(s) == Some(self) <==> s == self.token_text(),
    {
        reveal_strlit("low");
        reveal_strlit("medium");
        reveal_strlit("high");
        reveal_strlit("critical");
        assert("low"@.len() == 3 && "medium"@.len() == 6 && "high"@.len() == 4);
        assert("critical"@.len() == 8);
    }
}

} // verus!
