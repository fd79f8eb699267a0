//! Logging across the boundary between the protocol side and the host
//! side: records are buffered on one side and written out, on a signal, on
//! the other.

use vstd::prelude::*;
use vstd::string::StringExecFns;

verus! {

/// How grave a record is, gravest first.
#[derive(Debug, Clone, Copy, PartialEq, Eq, Structural)]
pub enum Level {
    Error,
    Warn,
    Info,
    Debug,
    Trace,
}

/// The levels of the host's debug log.
#[derive(Debug, Clone, Copy, PartialEq, Eq, Structural)]
pub enum PurpleDebugLevel {
    Misc,
    Info,
    Warning,
    Error,
}

/// A record as it is buffered: where it comes from, how grave it is, and
/// what it says.
#[derive(Debug, Clone)]
pub struct LogRecord {
    pub target: String,
    pub level: Level,
    pub message: String,
}

/// A line for the host's debug log.
#[derive(Debug, Clone)]
pub struct DebugLine {
    pub level: PurpleDebugLevel,
    pub line: String,
}

/// The rank of a level: 1 for errors up to 5 for traces.
pub open spec fn rank(level: Level) -> int {
    match level {
        Level::Error => 1,
        Level::Warn => 2,
        Level::Info => 3,
        Level::Debug => 4,
        Level::Trace => 5,
    }
}

/// The level of the host's log that a level is written at.
pub open spec fn debug_level_of(level: Level) -> PurpleDebugLevel {
    match level {
        Level::Error => PurpleDebugLevel::Error,
        Level::Warn => PurpleDebugLevel::Warning,
        Level::Info => PurpleDebugLevel::Info,
        _ => PurpleDebugLevel::Misc,
    }
}

/// The line that a record makes: its target in square brackets, a space,
/// the message, and a line break.
pub open spec fn line_of(target: Seq<char>, message: Seq<char>) -> Seq<char> {
    "["@ + target + "] "@ + message + "\n"@
}

/// Where a record comes from: its target, or the path of its module where
/// the target is empty, or nothing.
pub open spec fn target_of(target: Seq<char>, origin: Option<Seq<char>>) -> Seq<char> {
    if target.len() > 0 {
        target
    } else {
        match origin {
            Some(path) => path,
            None => Seq::empty(),
        }
    }
}

/// Where a record comes from.
pub fn record_target<'a>(target: &'a str, origin: Option<&'a str>) -> (out: &'a str)
    ensures
        out@ == target_of(
            target@,
            match origin {
                Some(path) => Some(path@),
                None => None,
            },
        ),
{
    if !target.is_empty() {
        target
    } else {
        match origin {
            Some(path) => path,
            None => {
                proof {
                    reveal_strlit("");
                    assert(""@ =~= Seq::<char>::empty());
                }
                ""
            },
        }
    }
}

/// The logger of the host side: it writes to the host's debug log.
#[derive(Debug, Clone, Copy)]
pub struct PurpleDebugLogger;

/// The logger of the protocol side: it buffers.
#[derive(Debug, Clone, Copy)]
pub struct RemoteLogger;

/// The records that wait to be written out, oldest first.
#[derive(Debug, Clone)]
pub struct LogBuffer {
    records: Vec<LogRecord>,
}

impl View for LogBuffer {
    type V = Seq<LogRecord>;

    closed spec fn view(&self) -> Seq<LogRecord> {
        self.records@
    }
}

impl LogBuffer {
    /// A buffer that holds nothing.
    pub fn new() -> (buffer: LogBuffer)
        ensures
            buffer@.len() == 0,
    {
        LogBuffer { records: Vec::new() }
    }

    /// How many records wait.
    pub fn len(&self) -> (n: usize)
        ensures
            n == self@.len(),
    {
        self.records.len()
    }
}

impl PurpleDebugLogger {
    /// Whether records of a level are wanted: errors, warnings and
    /// information are.
    pub fn enabled(&self, level: Level) -> (wanted: bool)
        ensures
            wanted == (rank(level) < rank(Level::Debug)),
    {
        match level {
            Level::Error => true,
            Level::Warn => true,
            Level::Info => true,
            _ => false,
        }
    }

    /// The line that the host's debug log gets for a record.
    pub fn log(&self, level: Level, target: &str, message: &str) -> (out: DebugLine)
        ensures
            out.level == debug_level_of(level),
            out.line@ == line_of(target@, message@),
    {
        let purple_level = match level {
            Level::Error => PurpleDebugLevel::Error,
            Level::Warn => PurpleDebugLevel::Warning,
            Level::Info => PurpleDebugLevel::Info,
            _ => PurpleDebugLevel::Misc,
        };
        let mut line = "[".to_owned();
        line.append(target);
        line.append("] ");
        line.append(message);
        line.append("\n");
        DebugLine { level: purple_level, line }
    }

    /// Writes out what the buffer holds: a line for every record, oldest
    /// first. The buffer is empty afterwards.
    pub fn flush(&self, buffer: &mut LogBuffer) -> (lines: Vec<DebugLine>)
        ensures
            final(buffer)@.len() == 0,
            lines@.len() == old(buffer)@.len(),
            forall|i: int|
                0 <= i < lines@.len() ==> {
                    &&& (#[trigger] lines@[i]).level == debug_level_of(old(buffer)@[i].level)
                    &&& lines@[i].line@ == line_of(
                        old(buffer)@[i].target@,
                        old(buffer)@[i].message@,
                    )
                },
    {
        let mut lines: Vec<DebugLine> = Vec::new();
        let mut k: usize = 0;
        while k < buffer.records.len()
            invariant
                k <= buffer.records@.len(),
                buffer.records@ == old(buffer)@,
                lines@.len() == k,
                forall|i: int|
                    0 <= i < k ==> {
                        &&& (#[trigger] lines@[i]).level == debug_level_of(old(buffer)@[i].level)
                        &&& lines@[i].line@ == line_of(
                            old(buffer)@[i].target@,
                            old(buffer)@[i].message@,
                        )
                    },
            decreases buffer.records@.len() - k,
        {
            let record = &buffer.records[k];
            lines.push(self.log(record.level, record.target.as_str(), record.message.as_str()));
            k += 1;
        }
        buffer.records.clear();
        lines
    }
}

impl RemoteLogger {
    /// Whether records of a level are wanted: errors, warnings and
    /// information are.
    pub fn enabled(&self, level: Level) -> (wanted: bool)
        ensures
            wanted == (rank(level) < rank(Level::Debug)),
    {
        match level {
            Level::Error => true,
            Level::Warn => true,
            Level::Info => true,
            _ => false,
        }
    }

    /// Puts a record at the end of the buffer.
    pub fn log(&self, buffer: &mut LogBuffer, level: Level, target: &str, message: &str)
        ensures
            final(buffer)@.len() == old(buffer)@.len() + 1,
            final(buffer)@.subrange(0, old(buffer)@.len() as int) == old(buffer)@,
            final(buffer)@.last().level == level,
            final(buffer)@.last().target@ == target@,
            final(buffer)@.last().message@ == message@,
    {
        buffer.records.push(
            LogRecord { target: target.to_owned(), level, message: message.to_owned() },
        );
        assert(buffer.records@.subrange(0, old(buffer)@.len() as int) =~= old(buffer)@);
    }
}

/// The logger that a thread logs through.
#[derive(Debug, Clone, Copy, PartialEq, Eq, Structural)]
pub enum Logger {
    Purple,
    Remote,
}

/// The logging of one thread: the most verbose level that is let through,
/// and the logger that records go to, once one is set.
#[derive(Debug, Clone, Copy)]
pub struct ThreadLocalLogger {
    pub max_level: Level,
    pub logger: Option<Logger>,
}

/// What becomes of a record.
#[derive(Debug, Clone)]
pub enum Logged {
    /// It was dropped: it is too verbose, or no logger is set.
    Dropped,
    /// It was buffered.
    Buffered,
    /// It makes this line of the host's debug log.
    Line(DebugLine),
}

/// What a flush asks for.
#[derive(Debug, Clone)]
pub enum Flushed {
    /// Nothing: no logger is set.
    Nothing,
    /// The host side is to be told to write the buffer out.
    Signal,
    /// These lines go to the host's debug log.
    Lines(Vec<DebugLine>),
}

/// Sets logging up: records more verbose than `level` are dropped, and no
/// logger is set yet.
pub fn init(level: Level) -> (logging: ThreadLocalLogger)
    ensures
        logging.max_level == level,
        logging.logger is None,
{
    ThreadLocalLogger { max_level: level, logger: None }
}

/// Sets the logger that the thread logs through from now on.
pub fn set_thread_logger(logging: &mut ThreadLocalLogger, logger: Logger)
    ensures
        final(logging).logger == Some(logger),
        final(logging).max_level == old(logging).max_level,
{
    logging.logger = Some(logger);
}

fn level_rank(level: Level) -> (r: u8)
    ensures
        r as int == rank(level),
{
    match level {
        Level::Error => 1,
        Level::Warn => 2,
        Level::Info => 3,
        Level::Debug => 4,
        Level::Trace => 5,
    }
}

impl ThreadLocalLogger {
    /// Every record is offered to the logger that is set.
    pub fn enabled(&self, _level: Level) -> (wanted: bool)
        ensures
            wanted,
    {
        true
    }

    /// Logs a record through the logger that is set: the host's logger
    /// makes a line of it, the remote one buffers it. A record more verbose
    /// than the level that was set up is dropped, and so is every record
    /// while no logger is set.
    pub fn log(&self, buffer: &mut LogBuffer, level: Level, target: &str, message: &str) -> (out:
        Logged)
        ensures
            match out {
                Logged::Dropped => (rank(level) > rank(self.max_level) || self.logger is None)
                    && final(buffer)@ == old(buffer)@,
                Logged::Buffered => {
                    &&& rank(level) <= rank(self.max_level)
                    &&& self.logger == Some(Logger::Remote)
                    &&& final(buffer)@.len() == old(buffer)@.len() + 1
                    &&& final(buffer)@.subrange(0, old(buffer)@.len() as int) == old(buffer)@
                    &&& final(buffer)@.last().level == level
                    &&& final(buffer)@.last().target@ == target@
                    &&& final(buffer)@.last().message@ == message@
                },
                Logged::Line(line) => {
                    &&& rank(level) <= rank(self.max_level)
                    &&& self.logger == Some(Logger::Purple)
                    &&& final(buffer)@ == old(buffer)@
                    &&& line.level == debug_level_of(level)
                    &&& line.line@ == line_of(target@, message@)
                },
            },
    {
        if level_rank(level) > level_rank(self.max_level) {
            return Logged::Dropped;
        }
        match self.logger {
            None => Logged::Dropped,
            Some(Logger::Remote) => {
                RemoteLogger.log(buffer, level, target, message);
                Logged::Buffered
            },
            Some(Logger::Purple) => Logged::Line(PurpleDebugLogger.log(level, target, message)),
        }
    }
}

/// Flushes the logger that is set: the remote one asks for the signal that
/// has the host side write the buffer out, the host's one writes it out.
pub fn flush(logging: &ThreadLocalLogger, buffer: &mut LogBuffer) -> (out: Flushed)
    ensures
        match out {
            Flushed::Nothing => logging.logger is None && final(buffer)@ == old(buffer)@,
            Flushed::Signal => logging.logger == Some(Logger::Remote) && final(buffer)@ == old(
                buffer,
            )@,
            Flushed::Lines(lines) => {
                &&& logging.logger == Some(Logger::Purple)
                &&& final(buffer)@.len() == 0
                &&& lines@.len() == old(buffer)@.len()
                &&& forall|i: int|
                    0 <= i < lines@.len() ==> {
                        &&& (#[trigger] lines@[i]).level == debug_level_of(old(buffer)@[i].level)
                        &&& lines@[i].line@ == line_of(
                            old(buffer)@[i].target@,
                            old(buffer)@[i].message@,
                        )
                    }
            },
        },
{
    match logging.logger {
        None => Flushed::Nothing,
        Some(Logger::Remote) => Flushed::Signal,
        Some(Logger::Purple) => Flushed::Lines(PurpleDebugLogger.flush(buffer)),
    }
}

} // verus!
