//! Reading the log back: what a CSV reader finds in the file that the logger has written.
//!
//! The reader is one to which only `'\n'` ends a record. A carriage return is to it a character like
//! any other, as it is to the logger, which does not quote it; a reader that ends records there too
//! may find something else in a field that holds one.
use crate::csv_log::{
    decimal_or_empty, escaped, logs_start, logs_stop, needs_quotes, quotes_doubled, LogEvent,
    LogRecord, HEADER,
};
use crate::text::{decimal, law_decimal_reads_back};
use crate::time::{is_time_notation, rfc3339_utc, Timestamp};
use vstd::prelude::*;

verus! {

/// Where in a field a reader stands.
pub enum Place {
    /// Before the first character of a field.
    FieldStart,
    /// In a field without quotes, or behind its quotes.
    Plain,
    /// Between the quotes of a field.
    Quoted,
    /// Behind a quote that either ends the field or is the first of a pair.
    AfterQuote,
}

/// What a reader has gathered so far: the records that have ended, the fields of the current
/// record that have ended, and the current field.
#[verifier::ext_equal]
pub struct Reader {
    pub records: Seq<Seq<Seq<char>>>,
    pub fields: Seq<Seq<char>>,
    pub field: Seq<char>,
    pub place: Place,
}

impl Reader {
    /// The reader behind complete records.
    pub open spec fn between(records: Seq<Seq<Seq<char>>>) -> Reader {
        Reader::within(records, Seq::empty())
    }

    /// The reader behind complete records and, in a further record, behind complete fields.
    pub open spec fn within(records: Seq<Seq<Seq<char>>>, fields: Seq<Seq<char>>) -> Reader {
        Reader { records, fields, field: Seq::empty(), place: Place::FieldStart }
    }

    /// The reader with `c` taken into the current field.
    pub open spec fn take(self, c: char, place: Place) -> Reader {
        Reader { field: self.field.push(c), place, ..self }
    }

    /// The reader behind the comma that ends the current field.
    pub open spec fn end_field(self) -> Reader {
        Reader::within(self.records, self.fields.push(self.field))
    }

    /// The reader behind the line end that ends the current record.
    pub open spec fn end_record(self) -> Reader {
        Reader::between(self.records.push(self.fields.push(self.field)))
    }

    /// The reader behind one more character: commas end fields and `'\n'` ends records, except
    /// between quotes, where a pair of quotes stands for one.
    pub open spec fn step(self, c: char) -> Reader {
        match self.place {
            Place::Quoted => {
                if c == '"' {
                    Reader { place: Place::AfterQuote, ..self }
                } else {
                    self.take(c, Place::Quoted)
                }
            },
            Place::AfterQuote if c == '"' => self.take(c, Place::Quoted),
            Place::FieldStart if c == '"' => Reader { place: Place::Quoted, ..self },
            _ => {
                if c == ',' {
                    self.end_field()
                } else if c == '\n' {
                    self.end_record()
                } else {
                    self.take(c, Place::Plain)
                }
            },
        }
    }

    /// The reader behind a whole text.
    pub open spec fn read(self, text: Seq<char>) -> Reader
        decreases text.len(),
    {
        if text.len() == 0 {
            self
        } else {
            self.read(text.drop_last()).step(text.last())
        }
    }
}

/// The reader behind the whole content of a file.
pub open spec fn read_file(content: Seq<char>) -> Reader {
    Reader::between(Seq::empty()).read(content)
}

/// Whether the content of a file ends behind a complete record.
pub open spec fn is_complete(content: Seq<char>) -> bool {
    read_file(content) == Reader::between(read_file(content).records)
}

/// Whether a field reads back as it is when it stands in a record without quotes.
pub open spec fn readable_bare(field: Seq<char>) -> bool {
    &&& !field.contains(',')
    &&& !field.contains('\n')
    &&& field.len() > 0 ==> field[0] != '"'
}

/// The values of a record's fields, before any escaping.
pub open spec fn values(record: LogRecord) -> Seq<Seq<char>> {
    seq![
        record.timestamp.spec_rfc3339(),
        record.event.spec_name(),
        decimal_or_empty(record.server_id),
        record.project_text(),
        decimal_or_empty(record.pipeline_id),
        record.reason,
        decimal_or_empty(record.duration_minutes),
    ]
}

/// Whether `text`, put behind the content of a file, reads back as one more record that consists of
/// these fields.
pub open spec fn adds_record(content: Seq<char>, text: Seq<char>, fields: Seq<Seq<char>>) -> bool {
    &&& read_file(content + text).records == read_file(content).records.push(fields)
    &&& is_complete(content + text)
}

/// The names of the columns.
pub open spec fn column_names() -> Seq<Seq<char>> {
    seq![
        "timestamp"@,
        "event"@,
        "server_id"@,
        "project"@,
        "pipeline_id"@,
        "reason"@,
        "duration_minutes"@,
    ]
}

proof fn lemma_read_concat(reader: Reader, a: Seq<char>, b: Seq<char>)
    ensures
        reader.read(a + b) == reader.read(a).read(b),
    decreases b.len(),
{
    if b.len() == 0 {
        assert(a + b =~= a);
    } else {
        assert((a + b).drop_last() =~= a + b.drop_last());
        assert((a + b).last() == b.last());
        lemma_read_concat(reader, a, b.drop_last());
    }
}

proof fn lemma_read_char(reader: Reader, c: char)
    ensures
        reader.read(seq![c]) == reader.step(c),
{
    assert(seq![c].drop_last() =~= Seq::<char>::empty());
    assert(reader.read(Seq::<char>::empty()) == reader);
}

/// A bare field is taken as it is.
proof fn lemma_read_bare(reader: Reader, field: Seq<char>)
    requires
        reader.place is FieldStart,
        reader.field.len() == 0,
        readable_bare(field),
    ensures
        reader.read(field).records == reader.records,
        reader.read(field).fields == reader.fields,
        reader.read(field).field == field,
        reader.read(field).place is FieldStart || reader.read(field).place is Plain,
        reader.read(field).place is FieldStart <==> field.len() == 0,
    decreases field.len(),
{
    if field.len() == 0 {
        assert(field =~= reader.field);
    } else {
        let init = field.drop_last();
        assert(field.contains(field.last())) by {
            assert(field[field.len() - 1] == field.last());
        }
        assert forall|c: char| init.contains(c) implies field.contains(c) by {
            let i = init.index_of(c);
            assert(field[i] == c);
        }
        assert(readable_bare(init));
        lemma_read_bare(reader, init);
        assert(init.push(field.last()) =~= field);
    }
}

/// Between quotes, a field with its quotes doubled is taken with its quotes single.
proof fn lemma_read_doubled(reader: Reader, field: Seq<char>)
    requires
        reader.place is Quoted,
    ensures
        reader.read(quotes_doubled(field)) == (Reader { field: reader.field + field, ..reader }),
    decreases field.len(),
{
    if field.len() == 0 {
        assert(reader.field + field =~= reader.field);
    } else {
        let init = field.drop_last();
        lemma_read_doubled(reader, init);
        let rest = quotes_doubled(init);
        assert((reader.field + init).push(field.last()) =~= reader.field + field);
        if field.last() == '"' {
            let once = rest.push('"');
            assert(once.drop_last() =~= rest);
            assert(reader.read(once) == reader.read(rest).step('"'));
            assert(once.push('"').drop_last() =~= once);
            assert(reader.read(once.push('"')) == reader.read(once).step('"'));
        } else {
            assert(rest.push(field.last()).drop_last() =~= rest);
        }
    }
}

/// An escaped field is taken as the field.
proof fn lemma_read_escaped(reader: Reader, field: Seq<char>)
    requires
        reader.place is FieldStart,
        reader.field.len() == 0,
    ensures
        reader.read(escaped(field)).records == reader.records,
        reader.read(escaped(field)).fields == reader.fields,
        reader.read(escaped(field)).field == field,
        !(reader.read(escaped(field)).place is Quoted),
{
    if needs_quotes(field) {
        let inner = quotes_doubled(field);
        lemma_read_concat(reader, seq!['"'] + inner, seq!['"']);
        lemma_read_concat(reader, seq!['"'], inner);
        lemma_read_char(reader, '"');
        lemma_read_doubled(reader.step('"'), field);
        lemma_read_char(reader.step('"').read(inner), '"');
        assert(reader.field + field =~= field);
    } else {
        if field.len() > 0 && field[0] == '"' {
            assert(field.contains('"'));
        }
        lemma_read_bare(reader, field);
    }
}

/// A further bare field and the comma behind it.
proof fn lemma_then_bare(
    reader: Reader,
    text: Seq<char>,
    records: Seq<Seq<Seq<char>>>,
    fields: Seq<Seq<char>>,
    field: Seq<char>,
)
    requires
        reader.read(text) == Reader::within(records, fields),
        readable_bare(field),
    ensures
        reader.read(text + field + seq![',']) == Reader::within(records, fields.push(field)),
{
    let here = Reader::within(records, fields);
    lemma_read_concat(reader, text, field);
    lemma_read_bare(here, field);
    lemma_read_concat(reader, text + field, seq![',']);
    lemma_read_char(here.read(field), ',');
}

/// A further escaped field and the comma behind it.
proof fn lemma_then_escaped(
    reader: Reader,
    text: Seq<char>,
    records: Seq<Seq<Seq<char>>>,
    fields: Seq<Seq<char>>,
    field: Seq<char>,
)
    requires
        reader.read(text) == Reader::within(records, fields),
    ensures
        reader.read(text + escaped(field) + seq![',']) == Reader::within(
            records,
            fields.push(field),
        ),
{
    let here = Reader::within(records, fields);
    lemma_read_concat(reader, text, escaped(field));
    lemma_read_escaped(here, field);
    lemma_read_concat(reader, text + escaped(field), seq![',']);
    lemma_read_char(here.read(escaped(field)), ',');
}

/// A last bare field and the line end behind it.
proof fn lemma_then_last(
    reader: Reader,
    text: Seq<char>,
    records: Seq<Seq<Seq<char>>>,
    fields: Seq<Seq<char>>,
    field: Seq<char>,
)
    requires
        reader.read(text) == Reader::within(records, fields),
        readable_bare(field),
    ensures
        reader.read((text + field).push('\n')) == Reader::between(records.push(fields.push(field))),
{
    let here = Reader::within(records, fields);
    lemma_read_concat(reader, text, field);
    lemma_read_bare(here, field);
    assert((text + field).push('\n').drop_last() =~= text + field);
}

proof fn lemma_optional_decimal_readable(n: Option<u64>)
    ensures
        readable_bare(decimal_or_empty(n)),
{
    match n {
        Some(v) => law_decimal_reads_back(v as nat),
        None => {},
    }
}

proof fn lemma_event_readable(event: LogEvent)
    ensures
        readable_bare(event.spec_name()),
{
    reveal_strlit("START");
    reveal_strlit("STOP");
}

/// What a record adds to the file reads back as one more record with the record's own values,
/// quotes, commas and line ends of the reason included, to a reader to which only `'\n'` ends a
/// record. The project, which is not escaped, must be able to stand there without quotes.
pub proof fn law_record_reads_back(content: Seq<char>, record: LogRecord)
    requires
        is_complete(content),
        is_time_notation(record.timestamp.spec_rfc3339()),
        readable_bare(record.project_text()),
    ensures
        adds_record(content, record.text(), values(record)),
{
    let reader = read_file(content);
    let records = reader.records;
    let time = record.timestamp.spec_rfc3339();
    let event = record.event.spec_name();
    let server = decimal_or_empty(record.server_id);
    let project = record.project_text();
    let pipeline = decimal_or_empty(record.pipeline_id);
    let duration = decimal_or_empty(record.duration_minutes);
    let comma = seq![','];
    lemma_event_readable(record.event);
    lemma_optional_decimal_readable(record.server_id);
    lemma_optional_decimal_readable(record.pipeline_id);
    lemma_optional_decimal_readable(record.duration_minutes);

    let text0 = Seq::<char>::empty();
    let fields0 = Seq::<Seq<char>>::empty();
    assert(reader.read(text0) == Reader::within(records, fields0));
    lemma_then_bare(reader, text0, records, fields0, time);
    assert(text0 + time =~= time);
    let text1 = time + comma;
    let fields1 = fields0.push(time);
    lemma_then_bare(reader, text1, records, fields1, event);
    let text2 = text1 + event + comma;
    let fields2 = fields1.push(event);
    lemma_then_bare(reader, text2, records, fields2, server);
    let text3 = text2 + server + comma;
    let fields3 = fields2.push(server);
    lemma_then_bare(reader, text3, records, fields3, project);
    let text4 = text3 + project + comma;
    let fields4 = fields3.push(project);
    lemma_then_bare(reader, text4, records, fields4, pipeline);
    let text5 = text4 + pipeline + comma;
    let fields5 = fields4.push(pipeline);
    lemma_then_escaped(reader, text5, records, fields5, record.reason);
    let text6 = text5 + escaped(record.reason) + comma;
    let fields6 = fields5.push(record.reason);
    lemma_then_last(reader, text6, records, fields6, duration);
    assert(fields6.push(duration) =~= values(record));
    lemma_read_concat(Reader::between(Seq::empty()), content, record.text());
}

/// A logged start reads back as a record with what the clock showed, and with the server, the
/// project, the pipeline and the reason that were logged, to a reader to which only `'\n'` ends a record. The project must be able to
/// stand there without quotes.
pub proof fn law_start_reads_back(
    content: Seq<char>,
    text: Seq<char>,
    server_id: u64,
    project: Seq<char>,
    pipeline_id: u64,
    reason: Seq<char>,
)
    requires
        is_complete(content),
        logs_start(text, server_id, project, pipeline_id, reason),
        readable_bare(project),
    ensures
        exists|now: Timestamp|
            call_ensures(Timestamp::now, (), now) && adds_record(
                content,
                text,
                seq![
                    #[trigger] rfc3339_utc(now.spec_seconds(), now.spec_nanos()),
                    "START"@,
                    decimal(server_id as nat),
                    project,
                    decimal(pipeline_id as nat),
                    reason,
                    Seq::empty(),
                ],
            ),
{
    let now = choose|now: Timestamp|
        #![trigger LogRecord::start(now, server_id, project, pipeline_id, reason)]
        call_ensures(Timestamp::now, (), now) && is_time_notation(now.spec_rfc3339()) && text
            == LogRecord::start(
            now,
            server_id,
            project,
            pipeline_id,
            reason,
        ).text();
    law_record_reads_back(content, LogRecord::start(now, server_id, project, pipeline_id, reason));
    assert(now.spec_rfc3339() == rfc3339_utc(now.spec_seconds(), now.spec_nanos()));
}

/// A logged stop reads back as a record with what the clock showed, and with the server, the reason
/// and the runtime that were logged, to a reader to which only `'\n'` ends a record.
pub proof fn law_stop_reads_back(
    content: Seq<char>,
    text: Seq<char>,
    server_id: u64,
    reason: Seq<char>,
    duration_minutes: u64,
)
    requires
        is_complete(content),
        logs_stop(text, server_id, reason, duration_minutes),
    ensures
        exists|now: Timestamp|
            call_ensures(Timestamp::now, (), now) && adds_record(
                content,
                text,
                seq![
                    #[trigger] rfc3339_utc(now.spec_seconds(), now.spec_nanos()),
                    "STOP"@,
                    decimal(server_id as nat),
                    Seq::empty(),
                    Seq::empty(),
                    reason,
                    decimal(duration_minutes as nat),
                ],
            ),
{
    let now = choose|now: Timestamp|
        #![trigger LogRecord::stop(now, server_id, reason, duration_minutes)]
        call_ensures(Timestamp::now, (), now) && is_time_notation(now.spec_rfc3339()) && text
            == LogRecord::stop(
            now,
            server_id,
            reason,
            duration_minutes,
        ).text();
    law_record_reads_back(content, LogRecord::stop(now, server_id, reason, duration_minutes));
    assert(now.spec_rfc3339() == rfc3339_utc(now.spec_seconds(), now.spec_nanos()));
}

/// The header of a fresh file reads back as one record, the names of the columns.
pub proof fn law_header_reads_back()
    ensures
        read_file(HEADER@.push('\n')).records == seq![column_names()],
        is_complete(HEADER@.push('\n')),
{
    reveal_strlit("timestamp,event,server_id,project,pipeline_id,reason,duration_minutes");
    reveal_strlit("timestamp");
    reveal_strlit("event");
    reveal_strlit("server_id");
    reveal_strlit("project");
    reveal_strlit("pipeline_id");
    reveal_strlit("reason");
    reveal_strlit("duration_minutes");
    let names = column_names();
    let comma = seq![','];
    let none = Seq::<Seq<Seq<char>>>::empty();
    let start = Reader::between(none);
    let text0 = Seq::<char>::empty();
    let text1 = text0 + names[0] + comma;
    let text2 = text1 + names[1] + comma;
    let text3 = text2 + names[2] + comma;
    let text4 = text3 + names[3] + comma;
    let text5 = text4 + names[4] + comma;
    let text6 = text5 + names[5] + comma;
    assert(HEADER@ =~= text6 + names[6]);
    let fields0 = Seq::<Seq<char>>::empty();
    let fields1 = fields0.push(names[0]);
    let fields2 = fields1.push(names[1]);
    let fields3 = fields2.push(names[2]);
    let fields4 = fields3.push(names[3]);
    let fields5 = fields4.push(names[4]);
    let fields6 = fields5.push(names[5]);
    lemma_then_bare(start, text0, none, fields0, names[0]);
    lemma_then_bare(start, text1, none, fields1, names[1]);
    lemma_then_bare(start, text2, none, fields2, names[2]);
    lemma_then_bare(start, text3, none, fields3, names[3]);
    lemma_then_bare(start, text4, none, fields4, names[4]);
    lemma_then_bare(start, text5, none, fields5, names[5]);
    lemma_then_last(start, text6, none, fields6, names[6]);
    assert(fields6.push(names[6]) =~= names);
    assert(none.push(names) =~= seq![names]);
}

/// The content of a log file: the header, then one record behind the other.
pub open spec fn log_content(records: Seq<LogRecord>) -> Seq<char>
    decreases records.len(),
{
    if records.len() == 0 {
        HEADER@.push('\n')
    } else {
        log_content(records.drop_last()) + records.last().text()
    }
}

/// A log file reads back as the names of the columns and then the values of every record, in the
/// order in which they were logged, to a reader to which only `'\n'` ends a record. The projects
/// must be able to stand there without quotes.
pub proof fn law_log_reads_back(records: Seq<LogRecord>)
    requires
        forall|i: int|
            0 <= i < records.len() ==> is_time_notation(
                (#[trigger] records[i]).timestamp.spec_rfc3339(),
            ),
        forall|i: int|
            0 <= i < records.len() ==> readable_bare((#[trigger] records[i]).project_text()),
    ensures
        read_file(log_content(records)).records == seq![column_names()] + records.map_values(
            |r: LogRecord| values(r),
        ),
        is_complete(log_content(records)),
    decreases records.len(),
{
    let all_values = |r: LogRecord| values(r);
    if records.len() == 0 {
        law_header_reads_back();
        assert(seq![column_names()] + records.map_values(all_values) =~= seq![column_names()]);
    } else {
        let init = records.drop_last();
        law_log_reads_back(init);
        law_record_reads_back(log_content(init), records.last());
        assert((seq![column_names()] + init.map_values(all_values)).push(values(records.last()))
            =~= seq![column_names()] + records.map_values(all_values));
    }
}

/// An escaped field reads back as the field, to a reader to which only `'\n'` ends a record.
pub proof fn law_escaped_field_reads_back(field: Seq<char>)
    ensures
        read_file(escaped(field).push('\n')).records == seq![seq![field]],
        is_complete(escaped(field).push('\n')),
{
    let start = Reader::between(Seq::empty());
    lemma_read_escaped(start, field);
    assert(escaped(field).push('\n').drop_last() =~= escaped(field));
    assert(start.read(escaped(field).push('\n')) == start.read(escaped(field)).end_record());
    assert(start.fields.push(field) =~= seq![field]);
    assert(start.records.push(seq![field]) =~= seq![seq![field]]);
}

} // verus!
