use vstd::prelude::*;

verus! {

/// Local status of an execution record.
#[derive(Clone, Copy, Debug, PartialEq, Eq, Structural)]
pub enum ExecutionStatus {
    Running,
    Complete,
    Failed,
    Canceled,
    Terminated,
    ContinuedAsNew,
    TimedOut,
    Unknown,
}

/// Status of a run as the orchestration engine reports it.
#[derive(Clone, Copy, Debug, PartialEq, Eq, Structural)]
pub enum RemoteStatus {
    Unspecified,
    Running,
    Completed,
    Failed,
    Canceled,
    Terminated,
    ContinuedAsNew,
    TimedOut,
}

/// The text under which a status is persisted and shown.
pub open spec fn status_text(s: ExecutionStatus) -> Seq<char> {
    match s {
        ExecutionStatus::Running => "RUNNING"@,
        ExecutionStatus::Complete => "COMPLETE"@,
        ExecutionStatus::Failed => "FAILED"@,
        ExecutionStatus::Canceled => "CANCELED"@,
        ExecutionStatus::Terminated => "TERMINATED"@,
        ExecutionStatus::ContinuedAsNew => "CONTINUED_AS_NEW"@,
        ExecutionStatus::TimedOut => "TIMED_OUT"@,
        ExecutionStatus::Unknown => "UNKNOWN"@,
    }
}

/// A terminal status is a fixed point: such a record is never polled again.
/// `CONTINUED_AS_NEW` counts as terminal since the continuation is a new run.
pub open spec fn is_terminal_status(s: ExecutionStatus) -> bool {
    match s {
        ExecutionStatus::Running | ExecutionStatus::Unknown => false,
        _ => true,
    }
}

/// The local status that a remote status maps to; anything unspecified is `Unknown`.
pub open spec fn local_status_of(r: RemoteStatus) -> ExecutionStatus {
    match r {
        RemoteStatus::Running => ExecutionStatus::Running,
        RemoteStatus::Completed => ExecutionStatus::Complete,
        RemoteStatus::Failed => ExecutionStatus::Failed,
        RemoteStatus::Canceled => ExecutionStatus::Canceled,
        RemoteStatus::Terminated => ExecutionStatus::Terminated,
        RemoteStatus::ContinuedAsNew => ExecutionStatus::ContinuedAsNew,
        RemoteStatus::TimedOut => ExecutionStatus::TimedOut,
        RemoteStatus::Unspecified => ExecutionStatus::Unknown,
    }
}

/// Distinct statuses have distinct texts.
pub proof fn lemma_status_text_injective(a: ExecutionStatus, b: ExecutionStatus)
    ensures
        status_text(a) == status_text(b) <==> a == b,
{
    reveal_strlit("RUNNING");
    reveal_strlit("COMPLETE");
    reveal_strlit("FAILED");
    reveal_strlit("CANCELED");
    reveal_strlit("TERMINATED");
    reveal_strlit("CONTINUED_AS_NEW");
    reveal_strlit("TIMED_OUT");
    reveal_strlit("UNKNOWN");
    if a != b {
        assert(status_text(a).len() != status_text(b).len() || status_text(a)[0] != status_text(
            b,
        )[0] || status_text(a)[1] != status_text(b)[1]);
    }
}

impl ExecutionStatus {
    /// The persisted text of this status.
    pub fn as_str(&self) -> (r: &'static str)
        ensures
            r@ == status_text(*self),
    {
        match self {
            ExecutionStatus::Running => "RUNNING",
            ExecutionStatus::Complete => "COMPLETE",
            ExecutionStatus::Failed => "FAILED",
            ExecutionStatus::Canceled => "CANCELED",
            ExecutionStatus::Terminated => "TERMINATED",
            ExecutionStatus::ContinuedAsNew => "CONTINUED_AS_NEW",
            ExecutionStatus::TimedOut => "TIMED_OUT",
            ExecutionStatus::Unknown => "UNKNOWN",
        }
    }

    /// The persisted text of this status, as an owned string.
    pub fn to_text(&self) -> (r: String)
        ensures
            r@ == status_text(*self),
    {
        self.as_str().to_owned()
    }

    pub fn is_terminal(&self) -> (r: bool)
        ensures
            r == is_terminal_status(*self),
    {
        match self {
            ExecutionStatus::Running | ExecutionStatus::Unknown => false,
            _ => true,
        }
    }

    /// Whether a record with this status is polled by reconciliation: only `Running` is.
    pub fn is_pollable(&self) -> (r: bool)
        ensures
            r == (*self == ExecutionStatus::Running),
    {
        match self {
            ExecutionStatus::Running => true,
            _ => false,
        }
    }
}

fn text_is(s: &String, lit: &str) -> (r: bool)
    ensures
        r == (s@ == lit@),
{
    let t: String = lit.to_owned();
    *s == t
}

/// Reads a persisted status text back; `None` for a text that names no status.
pub fn parse_status(s: &String) -> (r: Option<ExecutionStatus>)
    ensures
        r matches Some(st) ==> status_text(st) == s@,
        r is None ==> forall|st: ExecutionStatus| status_text(st) != s@,
{
    if text_is(s, "RUNNING") {
        Some(ExecutionStatus::Running)
    } else if text_is(s, "COMPLETE") {
        Some(ExecutionStatus::Complete)
    } else if text_is(s, "FAILED") {
        Some(ExecutionStatus::Failed)
    } else if text_is(s, "CANCELED") {
        Some(ExecutionStatus::Canceled)
    } else if text_is(s, "TERMINATED") {
        Some(ExecutionStatus::Terminated)
    } else if text_is(s, "CONTINUED_AS_NEW") {
        Some(ExecutionStatus::ContinuedAsNew)
    } else if text_is(s, "TIMED_OUT") {
        Some(ExecutionStatus::TimedOut)
    } else if text_is(s, "UNKNOWN") {
        Some(ExecutionStatus::Unknown)
    } else {
        None
    }
}

/// Maps a remote status to the local vocabulary.
pub fn map_remote_status(r: RemoteStatus) -> (s: ExecutionStatus)
    ensures
        s == local_status_of(r),
{
    match r {
        RemoteStatus::Running => ExecutionStatus::Running,
        RemoteStatus::Completed => ExecutionStatus::Complete,
        RemoteStatus::Failed => ExecutionStatus::Failed,
        RemoteStatus::Canceled => ExecutionStatus::Canceled,
        RemoteStatus::Terminated => ExecutionStatus::Terminated,
        RemoteStatus::ContinuedAsNew => ExecutionStatus::ContinuedAsNew,
        RemoteStatus::TimedOut => ExecutionStatus::TimedOut,
        RemoteStatus::Unspecified => ExecutionStatus::Unknown,
    }
}

/// The persisted text of the local status that a remote status maps to.
pub fn workflow_status_to_string(status: RemoteStatus) -> (r: &'static str)
    ensures
        r@ == status_text(local_status_of(status)),
{
    map_remote_status(status).as_str()
}

} // verus!
