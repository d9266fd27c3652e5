//! What the supervisor reports to the log sink.
use vstd::prelude::*;

verus! {

/// Severity of a log record.
#[derive(Clone, Copy, Debug, PartialEq, Eq, Structural)]
pub enum Level {
    Info,
    Warn,
    Error,
}

/// How a child process ended, as the operating system reported it.
#[derive(Clone, Copy, Debug, PartialEq, Eq, Structural)]
pub struct Termination {
    pub code: Option<i32>,
    pub signal: Option<i32>,
}

/// Why the backend could not be spawned.
#[derive(Debug, PartialEq, Eq)]
pub enum SpawnError {
    /// The backend executable could not be located.
    NotFound(String),
    /// The operating system refused to start the process.
    Os(String),
}

/// Why a kill signal could not be delivered.
#[derive(Debug, PartialEq, Eq)]
pub struct KillError {
    pub message: String,
}

/// The event that a log record reports.
#[derive(Debug, PartialEq, Eq)]
pub enum Notice {
    /// A line that the backend wrote to one of its output streams.
    Output(String),
    /// An error that the output stream of the backend reported.
    BackendError(String),
    /// The backend process ended.
    Exited(Termination),
    /// The backend runs outside this application and is not spawned.
    ExternallyManaged,
    /// The packaged backend is about to be spawned.
    Launching,
    /// The backend was spawned and its handle stored.
    Started,
    /// The backend could not be spawned.
    SpawnFailed(SpawnError),
    /// The backend was sent a kill signal.
    Killed,
    /// The kill signal could not be delivered.
    KillFailed(KillError),
}

/// One leveled record for the log sink.
#[derive(Debug, PartialEq, Eq)]
pub struct LogRecord {
    pub level: Level,
    pub notice: Notice,
}

/// The mathematical value of a `SpawnError`.
pub ghost enum SpawnErrorView {
    NotFound(Seq<char>),
    Os(Seq<char>),
}

/// The mathematical value of a `Notice`: strings as character sequences.
pub ghost enum NoticeView {
    Output(Seq<char>),
    BackendError(Seq<char>),
    Exited(Termination),
    ExternallyManaged,
    Launching,
    Started,
    SpawnFailed(SpawnErrorView),
    Killed,
    KillFailed(Seq<char>),
}

/// The mathematical value of a `LogRecord`.
pub ghost struct RecordView {
    pub level: Level,
    pub notice: NoticeView,
}

impl View for SpawnError {
    type V = SpawnErrorView;

    open spec fn view(&self) -> SpawnErrorView {
        match self {
            SpawnError::NotFound(m) => SpawnErrorView::NotFound(m@),
            SpawnError::Os(m) => SpawnErrorView::Os(m@),
        }
    }
}

impl View for Notice {
    type V = NoticeView;

    open spec fn view(&self) -> NoticeView {
        match self {
            Notice::Output(s) => NoticeView::Output(s@),
            Notice::BackendError(s) => NoticeView::BackendError(s@),
            Notice::Exited(t) => NoticeView::Exited(*t),
            Notice::ExternallyManaged => NoticeView::ExternallyManaged,
            Notice::Launching => NoticeView::Launching,
            Notice::Started => NoticeView::Started,
            Notice::SpawnFailed(e) => NoticeView::SpawnFailed(e@),
            Notice::Killed => NoticeView::Killed,
            Notice::KillFailed(e) => NoticeView::KillFailed(e.message@),
        }
    }
}

impl View for LogRecord {
    type V = RecordView;

    open spec fn view(&self) -> RecordView {
        RecordView { level: self.level, notice: self.notice@ }
    }
}

impl LogRecord {
    /// A record of the given level and notice.
    pub fn new(level: Level, notice: Notice) -> (r: LogRecord)
        ensures
            r.level == level,
            r@.notice == notice@,
    {
        LogRecord { level, notice }
    }
}

} // verus!
