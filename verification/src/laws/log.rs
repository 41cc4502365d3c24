//! Laws on what stands in the usage log, in cloud-init configurations and in messages.
use crate::base64_text::{base64_text, fits};
use crate::cloud_init::{
    cloud_init_for, cloud_init_lines, generate_cloud_init, with_line_ends, DOCKER_COMPOSE,
};
use crate::csv_log::{
    csv_line, escape_csv_field, escaped, logs_start, logs_stop, needs_quotes, quotes_doubled,
    CsvLogError, CsvLogger, LogEntry, LogEvent, LogRecord,
};
use crate::text::{decimal, decimal_text, law_trimmed, trim_trailing};
use crate::time::{rfc3339_utc, Timestamp};
use vstd::prelude::*;
use vstd::string::*;

verus! {

/// Whether a character makes quotes around a field necessary.
pub open spec fn is_special(c: char) -> bool {
    c == ',' || c == '"' || c == '\n'
}

/// A field without a comma, a quote or a line end stays as it is. Any other field stands between
/// quotes, with its own quotes doubled.
pub proof fn law_escape(field: &str, text: String)
    requires
        call_ensures(escape_csv_field, (field,), text),
    ensures
        (forall|i: int| 0 <= i < field@.len() ==> !is_special(#[trigger] field@[i])) ==> text@
            == field@,
        (exists|i: int| 0 <= i < field@.len() && is_special(#[trigger] field@[i])) ==> text@
            == seq!['"'] + quotes_doubled(field@) + seq!['"'],
{
    lemma_escaped(field@);
}

proof fn lemma_escaped(field: Seq<char>)
    ensures
        (forall|i: int| 0 <= i < field.len() ==> !is_special(#[trigger] field[i]))
            ==> escaped(field) == field,
        (exists|i: int| 0 <= i < field.len() && is_special(#[trigger] field[i]))
            ==> escaped(field) == seq!['"'] + quotes_doubled(field) + seq!['"'],
{
    if exists|i: int| 0 <= i < field.len() && is_special(#[trigger] field[i]) {
        let i = choose|i: int| 0 <= i < field.len() && is_special(#[trigger] field[i]);
        assert(field.contains(field[i]));
    }
    if needs_quotes(field) {
        let c = if field.contains(',') {
            ','
        } else if field.contains('"') {
            '"'
        } else {
            '\n'
        };
        let i = field.index_of(c);
        assert(is_special(field[i]));
    }
}

/// A reason as it stands in a record.
pub open spec fn quoted_if_special(field: Seq<char>) -> Seq<char> {
    if exists|i: int| 0 <= i < field.len() && is_special(#[trigger] field[i]) {
        seq!['"'] + quotes_doubled(field) + seq!['"']
    } else {
        field
    }
}

/// A number as it stands in a record; nothing if there is none.
pub open spec fn number_or_nothing(n: Option<u64>) -> Seq<char> {
    if n is Some {
        decimal(n->0 as nat)
    } else {
        Seq::empty()
    }
}

/// The word for an event.
pub open spec fn event_word(event: LogEvent) -> Seq<char> {
    if event is Start {
        "START"@
    } else {
        "STOP"@
    }
}

/// The columns of a record in their order: time, event, server, project, pipeline, reason and
/// runtime, with a comma between any two.
pub open spec fn columns(
    time: Seq<char>,
    event: Seq<char>,
    server_id: Seq<char>,
    project: Seq<char>,
    pipeline_id: Seq<char>,
    reason: Seq<char>,
    duration: Seq<char>,
) -> Seq<char> {
    time + seq![','] + event + seq![','] + server_id + seq![','] + project + seq![','] + pipeline_id
        + seq![','] + reason + seq![','] + duration
}

/// A line holds what the entry holds, column by column; of its texts only the reason is quoted.
pub proof fn law_line(timestamp: String, entry: LogEntry, line: String)
    requires
        call_ensures(csv_line, (timestamp, &entry), line),
    ensures
        line@ == columns(
            timestamp@,
            event_word(entry.event),
            number_or_nothing(entry.server_id),
            if entry.project is Some {
                entry.project->0@
            } else {
                Seq::empty()
            },
            number_or_nothing(entry.pipeline_id),
            quoted_if_special(entry.reason@),
            number_or_nothing(entry.duration_minutes),
        ),
{
    lemma_escaped(entry.reason@);
}

/// An entry adds one line to the file, with the time of the entry.
pub proof fn law_log(logger: CsvLogger, entry: LogEntry, text: String)
    requires
        call_ensures(CsvLogger::log, (&logger, &entry), text),
    ensures
        text@ == columns(
            rfc3339_utc(entry.timestamp.spec_seconds(), entry.timestamp.spec_nanos()),
            event_word(entry.event),
            number_or_nothing(entry.server_id),
            if entry.project is Some {
                entry.project->0@
            } else {
                Seq::empty()
            },
            number_or_nothing(entry.pipeline_id),
            quoted_if_special(entry.reason@),
            number_or_nothing(entry.duration_minutes),
        ) + seq!['\n'],
{
    lemma_escaped(entry.reason@);
}

/// Entries hold what they are made of: a start has a project and a pipeline and no runtime, a stop
/// has a runtime and neither of the others.
pub proof fn law_entries(
    at: Timestamp,
    server_id: u64,
    project: &str,
    pipeline_id: u64,
    reason: &str,
    duration: u64,
    start: LogEntry,
    stop: LogEntry,
)
    requires
        call_ensures(LogEntry::start, (at, server_id, project, pipeline_id, reason), start),
        call_ensures(LogEntry::stop, (at, server_id, reason, duration), stop),
    ensures
        start.timestamp == at && stop.timestamp == at,
        start.event is Start && stop.event is Stop,
        start.server_id == Some(server_id) && stop.server_id == Some(server_id),
        start.project is Some && start.project->0@ == project@ && stop.project is None,
        start.pipeline_id == Some(pipeline_id) && stop.pipeline_id is None,
        start.reason@ == reason@ && stop.reason@ == reason@,
        start.duration_minutes is None && stop.duration_minutes == Some(duration),
{
    assert(start@.project == Some(project@));
    assert(stop@.project is None);
    assert(start@.event == start.event && stop@.event == stop.event);
}

/// A start is logged with the time that the clock shows at the call, to the nanosecond.
pub proof fn law_start_is_logged_now(
    logger: CsvLogger,
    server_id: u64,
    project: &str,
    pipeline_id: u64,
    reason: &str,
    text: String,
)
    requires
        call_ensures(
            CsvLogger::log_start,
            (&logger, server_id, project, pipeline_id, reason),
            text,
        ),
    ensures
        exists|now: Timestamp|
            call_ensures(Timestamp::now, (), now) && text@ == columns(
                #[trigger] rfc3339_utc(now.spec_seconds(), now.spec_nanos()),
                "START"@,
                decimal(server_id as nat),
                project@,
                decimal(pipeline_id as nat),
                quoted_if_special(reason@),
                Seq::empty(),
            ) + seq!['\n'],
{
    lemma_start_text(text@, server_id, project@, pipeline_id, reason@);
}

/// A stop is logged with the time that the clock shows at the call, to the nanosecond.
pub proof fn law_stop_is_logged_now(
    logger: CsvLogger,
    server_id: u64,
    reason: &str,
    duration_minutes: u64,
    text: String,
)
    requires
        call_ensures(CsvLogger::log_stop, (&logger, server_id, reason, duration_minutes), text),
    ensures
        exists|now: Timestamp|
            call_ensures(Timestamp::now, (), now) && text@ == columns(
                #[trigger] rfc3339_utc(now.spec_seconds(), now.spec_nanos()),
                "STOP"@,
                decimal(server_id as nat),
                Seq::empty(),
                Seq::empty(),
                quoted_if_special(reason@),
                decimal(duration_minutes as nat),
            ) + seq!['\n'],
{
    lemma_stop_text(text@, server_id, reason@, duration_minutes);
}

pub(crate) proof fn lemma_start_text(
    text: Seq<char>,
    server_id: u64,
    project: Seq<char>,
    pipeline_id: u64,
    reason: Seq<char>,
)
    requires
        logs_start(text, server_id, project, pipeline_id, reason),
    ensures
        exists|now: Timestamp|
            call_ensures(Timestamp::now, (), now) && text == columns(
                #[trigger] rfc3339_utc(now.spec_seconds(), now.spec_nanos()),
                "START"@,
                decimal(server_id as nat),
                project,
                decimal(pipeline_id as nat),
                quoted_if_special(reason),
                Seq::empty(),
            ) + seq!['\n'],
{
    let now = choose|now: Timestamp|
        #![trigger LogRecord::start(now, server_id, project, pipeline_id, reason)]
        call_ensures(Timestamp::now, (), now) && text == LogRecord::start(
            now,
            server_id,
            project,
            pipeline_id,
            reason,
        ).text();
    lemma_escaped(reason);
    assert(text =~= columns(
        rfc3339_utc(now.spec_seconds(), now.spec_nanos()),
        "START"@,
        decimal(server_id as nat),
        project,
        decimal(pipeline_id as nat),
        quoted_if_special(reason),
        Seq::empty(),
    ) + seq!['\n']);
}

pub(crate) proof fn lemma_stop_text(
    text: Seq<char>,
    server_id: u64,
    reason: Seq<char>,
    duration_minutes: u64,
)
    requires
        logs_stop(text, server_id, reason, duration_minutes),
    ensures
        exists|now: Timestamp|
            call_ensures(Timestamp::now, (), now) && text == columns(
                #[trigger] rfc3339_utc(now.spec_seconds(), now.spec_nanos()),
                "STOP"@,
                decimal(server_id as nat),
                Seq::empty(),
                Seq::empty(),
                quoted_if_special(reason),
                decimal(duration_minutes as nat),
            ) + seq!['\n'],
{
    let now = choose|now: Timestamp|
        #![trigger LogRecord::stop(now, server_id, reason, duration_minutes)]
        call_ensures(Timestamp::now, (), now) && text == LogRecord::stop(
            now,
            server_id,
            reason,
            duration_minutes,
        ).text();
    lemma_escaped(reason);
    assert(text =~= columns(
        rfc3339_utc(now.spec_seconds(), now.spec_nanos()),
        "STOP"@,
        decimal(server_id as nat),
        Seq::empty(),
        Seq::empty(),
        quoted_if_special(reason),
        decimal(duration_minutes as nat),
    ) + seq!['\n']);
}

/// A new log file gets the header, and one that exists gets nothing.
pub proof fn law_header(
    logger: CsvLogger,
    file_exists: bool,
    header: String,
    initial: Option<String>,
)
    requires
        call_ensures(CsvLogger::write_header, (&logger,), header),
        call_ensures(CsvLogger::initial_text, (&logger, file_exists), initial),
    ensures
        header@
            == "timestamp,event,server_id,project,pipeline_id,reason,duration_minutes"@ + seq!['\n'],
        initial is Some <==> !file_exists,
        initial matches Some(text) ==> text@ == header@,
{
}

/// A logger keeps its directory, and its file has always the same name.
pub proof fn law_log_file(log_dir: &str, logger: CsvLogger)
    requires
        call_ensures(CsvLogger::new, (log_dir,), logger),
    ensures
        logger.log_dir@ == log_dir@,
        logger.file_name@ == "runner_usage.csv"@,
{
}

/// The words and messages of the log.
pub proof fn law_log_words(event: LogEvent, word: &'static str, error: CsvLogError, message: String)
    requires
        call_ensures(LogEvent::name, (&event,), word),
        call_ensures(CsvLogError::describe, (&error,), message),
    ensures
        word@ == event_word(event),
        error matches CsvLogError::FileError(cause) && message@
            == "Failed to open/create log file: "@ + cause@,
{
}

/// A number is written in decimal notation.
pub proof fn law_decimal_text(n: u64, text: String)
    requires
        call_ensures(decimal_text, (n,), text),
    ensures
        text@ == decimal(n as nat),
{
}

/// Trimming takes away the longest run of the character at the end, and nothing else.
pub proof fn law_trim_trailing(text: &str, c: char, trimmed: String)
    requires
        call_ensures(trim_trailing, (text, c), trimmed),
    ensures
        trimmed@.len() <= text@.len(),
        trimmed@ == text@.take(trimmed@.len() as int),
        trimmed@.len() > 0 ==> trimmed@.last() != c,
        forall|i: int| trimmed@.len() <= i < text@.len() ==> text@[i] == c,
{
    law_trimmed(text@, c);
}

/// A text of so many bytes fits if four characters for each begun group of three bytes do.
pub proof fn law_fits(count: usize, fit: bool)
    requires
        call_ensures(fits, (count,), fit),
    ensures
        fit <==> (count + 2) / 3 * 4 <= isize::MAX,
{
}

/// The cloud-init configuration around the Base64 texts of the two files, line by line.
pub open spec fn configuration(docker_compose: Seq<char>, runner: Seq<char>) -> Seq<char> {
    let end = seq!['\n'];
    "#cloud-config"@ + end + "package_update: true"@ + end + "package_upgrade: true"@ + end + end
        + "write_files:"@ + end + "  - path: /srv/forgejo-runner/docker-compose.yml"@ + end
        + "    encoding: b64"@ + end + "    content: "@ + docker_compose + end
        + "  - path: /srv/forgejo-runner/data/.runner"@ + end + "    encoding: b64"@ + end
        + "    content: "@ + runner + end + "    owner: '1001:1001'"@ + end
        + "    permissions: '0600'"@ + end + end + "runcmd:"@ + end
        + "  - chown -R 1001:1001 /srv/forgejo-runner/data"@ + end
        + "  - curl -fsSL https://get.docker.com -o install-docker.sh"@ + end
        + "  - sh install-docker.sh"@ + end
        + "  - docker compose -f /srv/forgejo-runner/docker-compose.yml up -d"@ + end
}

/// A configuration has the same text around its two files, whatever they hold.
pub proof fn law_configuration(docker_compose: &[u8], runner: &[u8], document: String)
    requires
        call_ensures(cloud_init_for, (docker_compose, runner), document),
    ensures
        document@ == configuration(base64_text(docker_compose@), base64_text(runner@)),
{
    lemma_configuration(base64_text(docker_compose@), base64_text(runner@));
}

/// The generated configuration holds the Docker Compose configuration and the credentials.
pub proof fn law_generated_configuration(runner_dot_file: &str, document: String)
    requires
        call_ensures(generate_cloud_init, (runner_dot_file,), document),
    ensures
        document@ == configuration(
            base64_text(DOCKER_COMPOSE.spec_bytes()),
            base64_text(runner_dot_file.spec_bytes()),
        ),
{
    lemma_configuration(
        base64_text(DOCKER_COMPOSE.spec_bytes()),
        base64_text(runner_dot_file.spec_bytes()),
    );
}

proof fn lemma_line(lines: Seq<Seq<char>>, i: int)
    requires
        0 <= i < lines.len(),
    ensures
        with_line_ends(lines.take(i + 1)) == with_line_ends(lines.take(i)) + lines[i] + seq!['\n'],
{
    assert(lines.take(i + 1).drop_last() =~= lines.take(i));
    assert(with_line_ends(lines.take(i)) + lines[i].push('\n') =~= with_line_ends(lines.take(i))
        + lines[i] + seq!['\n']);
}

proof fn lemma_configuration(docker_compose: Seq<char>, runner: Seq<char>)
    ensures
        with_line_ends(cloud_init_lines(docker_compose, runner)) == configuration(
            docker_compose,
            runner,
        ),
{
    let lines = cloud_init_lines(docker_compose, runner);
    assert(lines.len() == 19);
    reveal_strlit("");
    assert(lines.take(0) =~= Seq::<Seq<char>>::empty());
    lemma_line(lines, 0);
    lemma_line(lines, 1);
    lemma_line(lines, 2);
    lemma_line(lines, 3);
    lemma_line(lines, 4);
    lemma_line(lines, 5);
    lemma_line(lines, 6);
    lemma_line(lines, 7);
    lemma_line(lines, 8);
    lemma_line(lines, 9);
    lemma_line(lines, 10);
    lemma_line(lines, 11);
    lemma_line(lines, 12);
    lemma_line(lines, 13);
    lemma_line(lines, 14);
    lemma_line(lines, 15);
    lemma_line(lines, 16);
    lemma_line(lines, 17);
    lemma_line(lines, 18);
    assert(lines.take(19) =~= lines);
    let end = seq!['\n'];
    let upto7 = with_line_ends(lines.take(7)) + "    content: "@;
    assert(with_line_ends(lines.take(1)) =~= "#cloud-config"@ + end);
    assert(with_line_ends(lines.take(4)) =~= with_line_ends(lines.take(3)) + end);
    assert(with_line_ends(lines.take(8)) =~= upto7 + docker_compose + end);
    let upto10 = with_line_ends(lines.take(10)) + "    content: "@;
    assert(with_line_ends(lines.take(11)) =~= upto10 + runner + end);
    assert(with_line_ends(lines.take(14)) =~= with_line_ends(lines.take(13)) + end);
}

} // verus!
