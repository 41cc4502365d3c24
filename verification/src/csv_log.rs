//! The usage log: one CSV record for every start and every stop of the runner server.
use crate::csv_reading::{
    adds_record, is_complete, law_record_reads_back, readable_bare, values,
};
use crate::text::{decimal, decimal_text};
use crate::time::{in_calendar, is_time_notation, Timestamp};
use vstd::prelude::*;
use vstd::string::*;

verus! {

/// The header record of the log file, without its line end.
pub const HEADER: &'static str = "timestamp,event,server_id,project,pipeline_id,reason,duration_minutes";

/// Name of the log file in its directory.
pub const LOG_FILE_NAME: &'static str = "runner_usage.csv";

/// Errors that can occur during CSV logging.
#[derive(Debug)]
pub enum CsvLogError {
    /// The log file could not be opened, created or written; with the system's message.
    FileError(String),
}

impl CsvLogError {
    /// The message of this error.
    pub fn describe(&self) -> (message: String)
        ensures
            message@ == "Failed to open/create log file: "@ + self->FileError_0@,
    {
        match self {
            CsvLogError::FileError(cause) => {
                String::from_str("Failed to open/create log file: ").concat(cause.as_str())
            },
        }
    }
}

/// Event type for the CSV log.
#[derive(Debug, Clone, Copy, PartialEq, Eq, Structural)]
pub enum LogEvent {
    /// Server was started
    Start,
    /// Server was stopped
    Stop,
}

impl LogEvent {
    /// The word that stands for the event in the log.
    pub open spec fn spec_name(self) -> Seq<char> {
        match self {
            LogEvent::Start => "START"@,
            LogEvent::Stop => "STOP"@,
        }
    }

    /// The word that stands for the event in the log.
    pub fn name(&self) -> (word: &'static str)
        ensures
            word@ == self.spec_name(),
    {
        match self {
            LogEvent::Start => "START",
            LogEvent::Stop => "STOP",
        }
    }
}

/// An entry in the CSV log.
#[derive(Debug, Clone)]
pub struct LogEntry {
    /// Timestamp of the event
    pub timestamp: Timestamp,
    /// Type of event (START/STOP)
    pub event: LogEvent,
    /// Hetzner server ID
    pub server_id: Option<u64>,
    /// Project (owner and name)
    pub project: Option<String>,
    /// Pipeline ID that triggered the start
    pub pipeline_id: Option<u64>,
    /// Reason for the event
    pub reason: String,
    /// Runtime in minutes (only for STOP)
    pub duration_minutes: Option<u64>,
}

/// What a log entry says.
#[verifier::ext_equal]
pub struct LogRecord {
    pub timestamp: Timestamp,
    pub event: LogEvent,
    pub server_id: Option<u64>,
    pub project: Option<Seq<char>>,
    pub pipeline_id: Option<u64>,
    pub reason: Seq<char>,
    pub duration_minutes: Option<u64>,
}

impl View for LogEntry {
    type V = LogRecord;

    open spec fn view(&self) -> LogRecord {
        LogRecord {
            timestamp: self.timestamp,
            event: self.event,
            server_id: self.server_id,
            project: match self.project {
                Some(p) => Some(p@),
                None => None,
            },
            pipeline_id: self.pipeline_id,
            reason: self.reason@,
            duration_minutes: self.duration_minutes,
        }
    }
}

/// An optional number in decimal notation; no number is the empty text.
pub open spec fn decimal_or_empty(n: Option<u64>) -> Seq<char> {
    match n {
        Some(v) => decimal(v as nat),
        None => Seq::empty(),
    }
}

/// Whether a field has to stand in quotes.
pub open spec fn needs_quotes(field: Seq<char>) -> bool {
    field.contains(',') || field.contains('"') || field.contains('\n')
}

/// The field with each quote written twice.
pub open spec fn quotes_doubled(field: Seq<char>) -> Seq<char>
    decreases field.len(),
{
    if field.len() == 0 {
        Seq::empty()
    } else if field.last() == '"' {
        quotes_doubled(field.drop_last()).push('"').push('"')
    } else {
        quotes_doubled(field.drop_last()).push(field.last())
    }
}

/// The field as it stands in a record: quoted where it has to be.
pub open spec fn escaped(field: Seq<char>) -> Seq<char> {
    if needs_quotes(field) {
        seq!['"'] + quotes_doubled(field) + seq!['"']
    } else {
        field
    }
}

impl LogRecord {
    /// The record of a server start.
    pub open spec fn start(
        timestamp: Timestamp,
        server_id: u64,
        project: Seq<char>,
        pipeline_id: u64,
        reason: Seq<char>,
    ) -> LogRecord {
        LogRecord {
            timestamp,
            event: LogEvent::Start,
            server_id: Some(server_id),
            project: Some(project),
            pipeline_id: Some(pipeline_id),
            reason,
            duration_minutes: None,
        }
    }

    /// The record of a server stop.
    pub open spec fn stop(
        timestamp: Timestamp,
        server_id: u64,
        reason: Seq<char>,
        duration_minutes: u64,
    ) -> LogRecord {
        LogRecord {
            timestamp,
            event: LogEvent::Stop,
            server_id: Some(server_id),
            project: None,
            pipeline_id: None,
            reason,
            duration_minutes: Some(duration_minutes),
        }
    }

    /// The project, or the empty text.
    pub open spec fn project_text(self) -> Seq<char> {
        match self.project {
            Some(p) => p,
            None => Seq::empty(),
        }
    }

    /// The line of this record, with its timestamp in this notation: its fields with commas between
    /// them. Only the reason is escaped.
    pub open spec fn line(self, timestamp: Seq<char>) -> Seq<char> {
        timestamp + seq![','] + self.event.spec_name() + seq![','] + decimal_or_empty(
            self.server_id,
        ) + seq![','] + self.project_text() + seq![','] + decimal_or_empty(self.pipeline_id)
            + seq![','] + escaped(self.reason) + seq![','] + decimal_or_empty(
            self.duration_minutes,
        )
    }

    /// The text that this record adds to the log file.
    pub open spec fn text(self) -> Seq<char> {
        self.line(self.timestamp.spec_rfc3339()).push('\n')
    }
}

/// Whether `text` logs a server start with these data, at the time that the clock showed.
pub open spec fn logs_start(
    text: Seq<char>,
    server_id: u64,
    project: Seq<char>,
    pipeline_id: u64,
    reason: Seq<char>,
) -> bool {
    exists|now: Timestamp|
        #![trigger LogRecord::start(now, server_id, project, pipeline_id, reason)]
        {
            &&& call_ensures(Timestamp::now, (), now)
            &&& 0 <= now.spec_seconds()
            &&& in_calendar(now.spec_seconds(), now.spec_nanos())
            &&& is_time_notation(now.spec_rfc3339())
            &&& text == LogRecord::start(now, server_id, project, pipeline_id, reason).text()
        }
}

/// Whether `text` logs a server stop with these data, at the time that the clock showed.
pub open spec fn logs_stop(
    text: Seq<char>,
    server_id: u64,
    reason: Seq<char>,
    duration_minutes: u64,
) -> bool {
    exists|now: Timestamp|
        #![trigger LogRecord::stop(now, server_id, reason, duration_minutes)]
        {
            &&& call_ensures(Timestamp::now, (), now)
            &&& 0 <= now.spec_seconds()
            &&& in_calendar(now.spec_seconds(), now.spec_nanos())
            &&& is_time_notation(now.spec_rfc3339())
            &&& text == LogRecord::stop(now, server_id, reason, duration_minutes).text()
        }
}

/// Writes an optional number; no number is the empty text.
fn optional_decimal(n: Option<u64>) -> (text: String)
    ensures
        text@ == decimal_or_empty(n),
{
    match n {
        Some(v) => decimal_text(v),
        None => String::new(),
    }
}

/// Escapes a CSV field if it contains special characters.
pub fn escape_csv_field(field: &str) -> (text: String)
    ensures
        text@ == escaped(field@),
{
    let mut special = false;
    let mut doubled = String::new();
    for c in iter: field.chars()
        invariant
            iter.seq() == field@,
            special == needs_quotes(field@.take(iter.index() as int)),
            doubled@ == quotes_doubled(field@.take(iter.index() as int)),
    {
        let ghost before = field@.take(iter.index() as int);
        let ghost after = field@.take(iter.index() + 1);
        assert(after.drop_last() =~= before);
        assert(after =~= before.push(c));
        assert(needs_quotes(after) == (needs_quotes(before) || c == ',' || c == '"' || c == '\n'))
            by {
            lemma_contains_push(before, c, ',');
            lemma_contains_push(before, c, '"');
            lemma_contains_push(before, c, '\n');
        }
        if c == ',' || c == '"' || c == '\n' {
            special = true;
        }
        if c == '"' {
            doubled.push('"');
        }
        doubled.push(c);
    }
    assert(field@.take(field@.len() as int) =~= field@);
    if special {
        let mut text = String::new();
        text.push('"');
        text.append(doubled.as_str());
        text.push('"');
        assert(text@ =~= seq!['"'] + quotes_doubled(field@) + seq!['"']);
        text
    } else {
        field.to_owned()
    }
}

impl LogEntry {
    /// The entry of a server start.
    pub fn start(
        timestamp: Timestamp,
        server_id: u64,
        project: &str,
        pipeline_id: u64,
        reason: &str,
    ) -> (entry: LogEntry)
        ensures
            entry@ == LogRecord::start(timestamp, server_id, project@, pipeline_id, reason@),
    {
        LogEntry {
            timestamp,
            event: LogEvent::Start,
            server_id: Some(server_id),
            project: Some(project.to_owned()),
            pipeline_id: Some(pipeline_id),
            reason: reason.to_owned(),
            duration_minutes: None,
        }
    }

    /// The entry of a server stop.
    pub fn stop(timestamp: Timestamp, server_id: u64, reason: &str, duration_minutes: u64) -> (entry:
        LogEntry)
        ensures
            entry@ == LogRecord::stop(timestamp, server_id, reason@, duration_minutes),
    {
        LogEntry {
            timestamp,
            event: LogEvent::Stop,
            server_id: Some(server_id),
            project: None,
            pipeline_id: None,
            reason: reason.to_owned(),
            duration_minutes: Some(duration_minutes),
        }
    }
}

/// Formats the line of an entry, without a line end, behind the notation of its timestamp.
pub fn csv_line(timestamp: String, entry: &LogEntry) -> (line: String)
    ensures
        line@ == entry@.line(timestamp@),
{
    let ghost time = timestamp@;
    let mut line = timestamp;
    line.push(',');
    line.append(entry.event.name());
    line.push(',');
    line.append(optional_decimal(entry.server_id).as_str());
    line.push(',');
    match &entry.project {
        Some(project) => {
            line.append(project.as_str());
        },
        None => {},
    }
    line.push(',');
    line.append(optional_decimal(entry.pipeline_id).as_str());
    line.push(',');
    line.append(escape_csv_field(entry.reason.as_str()).as_str());
    line.push(',');
    line.append(optional_decimal(entry.duration_minutes).as_str());
    assert(line@ =~= entry@.line(time));
    line
}

/// CSV logger for runner usage. It writes no file itself: it hands out the text that belongs into
/// the file `file_name` in the directory `log_dir`. How the two are joined to a path is left to the
/// platform.
#[derive(Debug, Clone)]
pub struct CsvLogger {
    /// Directory of the log file
    pub log_dir: String,
    /// Name of the log file in its directory
    pub file_name: &'static str,
}

impl CsvLogger {
    /// Creates a logger for the log file in `log_dir`.
    pub fn new(log_dir: &str) -> (logger: CsvLogger)
        ensures
            logger.log_dir@ == log_dir@,
            logger.file_name@ == LOG_FILE_NAME@,
    {
        CsvLogger { log_dir: log_dir.to_owned(), file_name: LOG_FILE_NAME }
    }

    /// The text of a fresh log file: the header record.
    pub fn write_header(&self) -> (text: String)
        ensures
            text@ == HEADER@.push('\n'),
    {
        let mut text = HEADER.to_owned();
        text.push('\n');
        text
    }

    /// What has to be written when the logger is set up: the header if the file is new, else
    /// nothing.
    pub fn initial_text(&self, file_exists: bool) -> (text: Option<String>)
        ensures
            text is Some <==> !file_exists,
            text matches Some(t) ==> t@ == HEADER@.push('\n'),
    {
        if file_exists {
            None
        } else {
            Some(self.write_header())
        }
    }

    /// The text that `entry` adds at the end of the log file: its line and a line end.
    ///
    /// Only the reason is escaped. So where the project can stand in a record without quotes, the
    /// text reads back, behind a complete file, as one more record with the values of the entry, to
    /// a reader to which only `'\n'` ends a record. Of other projects, such as one with a comma in
    /// it, this is not said.
    pub fn log(&self, entry: &LogEntry) -> (text: String)
        ensures
            text@ == entry@.text(),
            is_time_notation(entry.timestamp.spec_rfc3339()),
            readable_bare(entry@.project_text()) ==> forall|content: Seq<char>| #[trigger]
                is_complete(content) ==> adds_record(content, text@, values(entry@)),
    {
        let mut text = csv_line(entry.timestamp.rfc3339(), entry);
        text.push('\n');
        proof {
            if readable_bare(entry@.project_text()) {
                assert forall|content: Seq<char>| #[trigger] is_complete(content) implies adds_record(
                    content,
                    text@,
                    values(entry@),
                ) by {
                    law_record_reads_back(content, entry@);
                }
            }
        }
        text
    }

    /// Logs a server start at the current time: the text to add to the log file.
    pub fn log_start(&self, server_id: u64, project: &str, pipeline_id: u64, reason: &str) -> (text:
        String)
        ensures
            logs_start(text@, server_id, project@, pipeline_id, reason@),
    {
        let now = Timestamp::now();
        let entry = LogEntry::start(now, server_id, project, pipeline_id, reason);
        self.log(&entry)
    }

    /// Logs a server stop at the current time: the text to add to the log file.
    pub fn log_stop(&self, server_id: u64, reason: &str, duration_minutes: u64) -> (text: String)
        ensures
            logs_stop(text@, server_id, reason@, duration_minutes),
    {
        let now = Timestamp::now();
        let entry = LogEntry::stop(now, server_id, reason, duration_minutes);
        self.log(&entry)
    }
}

/// Doubling quotes takes a field apart: parts are doubled one behind the other, a quote becomes two,
/// and any other character stays.
pub proof fn law_quotes_doubled(a: Seq<char>, b: Seq<char>, c: char)
    ensures
        quotes_doubled(a + b) == quotes_doubled(a) + quotes_doubled(b),
        quotes_doubled(seq![c]) == if c == '"' {
            seq!['"', '"']
        } else {
            seq![c]
        },
        quotes_doubled(Seq::empty()) == Seq::<char>::empty(),
    decreases b.len(),
{
    assert(seq![c].drop_last() =~= Seq::<char>::empty());
    assert(quotes_doubled(Seq::<char>::empty()) =~= Seq::<char>::empty());
    assert(seq![c].last() == c);
    if c == '"' {
        assert(quotes_doubled(seq![c]) == quotes_doubled(seq![c].drop_last()).push('"').push('"'));
        assert(quotes_doubled(seq![c]) =~= seq!['"', '"']);
    } else {
        assert(quotes_doubled(seq![c]) =~= seq![c]);
    }
    if b.len() == 0 {
        assert(a + b =~= a);
        assert(quotes_doubled(a) + quotes_doubled(b) =~= quotes_doubled(a));
    } else {
        law_quotes_doubled(a, b.drop_last(), c);
        assert((a + b).drop_last() =~= a + b.drop_last());
        assert(quotes_doubled(a + b) =~= quotes_doubled(a) + quotes_doubled(b));
    }
}

proof fn lemma_contains_push(s: Seq<char>, c: char, sought: char)
    ensures
        s.push(c).contains(sought) == (s.contains(sought) || c == sought),
{
    if s.contains(sought) {
        let i = s.index_of(sought);
        assert(s.push(c)[i] == sought);
    }
    if c == sought {
        assert(s.push(c)[s.len() as int] == sought);
    }
}

} // verus!
