use vstd::prelude::*;
use crate::command::{classify, insert_keyword, spec_classify, Command, MetaCommand, Statement};
use crate::insert::{
    captures_of, decimal_value, decimal_value_nonnegative, insert_fields, is_decimal, parse_insert, pattern_compiles,
    ParseError, INSERT_PATTERN,
};
use crate::record::{RecordView, Table, FIELD_WIDTH};

verus! {

/// Start of the diagnostic for a dot-prefixed line that names no meta command.
pub const META_DIAGNOSTIC: &'static str = "unrecognized meta command: ";

/// Start of the diagnostic for a line that is neither a meta command nor a statement.
pub const INPUT_DIAGNOSTIC: &'static str = "Unrecognized input: ";

/// What the shell has to report after handling one line.
#[derive(Debug)]
pub enum Response {
    /// The session is over: no further line is handled.
    Exit,
    /// The diagnostic for an unknown meta command, naming the line.
    UnrecognizedMeta(String),
    /// The diagnostic for an unrecognised line, naming the line.
    UnrecognizedInput(String),
    /// An insert statement yielded no record; the table is unchanged.
    InsertFailed(ParseError),
    /// An insert statement appended its record.
    Inserted,
    /// The whole table is to be shown, in insertion order.
    Select,
}

/// The state of a session, as mathematical values.
pub struct ShellView {
    pub rows: Seq<RecordView>,
    pub running: bool,
}

/// The record that an insert line appends, if it yields one.
pub open spec fn appended(line: Seq<char>) -> Option<RecordView> {
    if pattern_compiles(INSERT_PATTERN@) {
        match insert_fields(captures_of(INSERT_PATTERN@, line)) {
            Ok(rec) => Some(rec),
            Err(_) => None,
        }
    } else {
        None
    }
}

/// The session after one line. Once it has stopped, nothing changes it.
pub open spec fn step(s: ShellView, line: Seq<char>) -> ShellView {
    if !s.running {
        s
    } else {
        match spec_classify(line) {
            Command::Meta(MetaCommand::Exit) => ShellView { rows: s.rows, running: false },
            Command::Statement(Statement::Insert) => match appended(line) {
                Some(rec) => ShellView { rows: s.rows.push(rec), running: true },
                None => s,
            },
            _ => s,
        }
    }
}

/// The session after each of `lines` in turn.
pub open spec fn run(s: ShellView, lines: Seq<Seq<char>>) -> ShellView
    decreases lines.len(),
{
    if lines.len() == 0 {
        s
    } else {
        run(step(s, lines[0]), lines.drop_first())
    }
}

/// Whether `r` is what the shell reports for `line`.
pub open spec fn reports(running: bool, line: Seq<char>, r: Response) -> bool {
    if !running {
        r is Exit
    } else {
        match spec_classify(line) {
            Command::Meta(MetaCommand::Exit) => r is Exit,
            Command::UnrecognizedMeta => r is UnrecognizedMeta && r->UnrecognizedMeta_0@
                == META_DIAGNOSTIC@ + line,
            Command::Unrecognized => r is UnrecognizedInput && r->UnrecognizedInput_0@
                == INPUT_DIAGNOSTIC@ + line,
            Command::Statement(Statement::Select) => r is Select,
            Command::Statement(Statement::Insert) => {
                &&& (appended(line) is Some <==> r is Inserted)
                &&& (appended(line) is None <==> r is InsertFailed)
                &&& (r is InsertFailed && pattern_compiles(INSERT_PATTERN@)) ==> Err::<
                    RecordView,
                    ParseError,
                >(r->InsertFailed_0) == insert_fields(captures_of(INSERT_PATTERN@, line))
                &&& !pattern_compiles(INSERT_PATTERN@) ==> r is InsertFailed
                    && r->InsertFailed_0 is RegexCreation
            },
        }
    }
}

/// An interactive session: the table and whether lines are still handled.
pub struct Shell {
    table: Table,
    running: bool,
}

impl View for Shell {
    type V = ShellView;

    closed spec fn view(&self) -> ShellView {
        ShellView { rows: self.table@, running: self.running }
    }
}

impl Shell {
    /// A running session over an empty table.
    pub fn new() -> (sh: Shell)
        ensures
            sh@ == (ShellView { rows: Seq::empty(), running: true }),
    {
        Shell { table: Table::new(), running: true }
    }

    /// The table of the session.
    pub fn table(&self) -> (t: &Table)
        ensures
            t@ == self@.rows,
    {
        &self.table
    }

    /// Whether lines are still handled, that is, `.exit` has not been seen.
    pub fn is_running(&self) -> (b: bool)
        ensures
            b == self@.running,
    {
        self.running
    }

    /// Handles one trimmed line and says what to report.
    pub fn execute(&mut self, line: &str) -> (r: Response)
        ensures
            final(self)@ == step(old(self)@, line@),
            reports(old(self)@.running, line@, r),
    {
        if !self.running {
            return Response::Exit;
        }
        match classify(line) {
            Command::Meta(MetaCommand::Exit) => {
                self.running = false;
                Response::Exit
            },
            Command::UnrecognizedMeta => Response::UnrecognizedMeta(
                META_DIAGNOSTIC.to_owned().concat(line),
            ),
            Command::Unrecognized => Response::UnrecognizedInput(
                INPUT_DIAGNOSTIC.to_owned().concat(line),
            ),
            Command::Statement(Statement::Select) => Response::Select,
            Command::Statement(Statement::Insert) => match parse_insert(line) {
                Ok(record) => {
                    self.table.append(record);
                    Response::Inserted
                },
                Err(e) => Response::InsertFailed(e),
            },
        }
    }
}

/// A valid insert line whose identifier fits and whose fields fit their
/// slots is stored as the last record, and its fields read back as given:
/// the text first, then `'\0'` padding.
pub proof fn insert_round_trip(
    s: ShellView,
    line: Seq<char>,
    whole: Seq<char>,
    id: Seq<char>,
    username: Seq<char>,
    email: Seq<char>,
)
    requires
        s.running,
        insert_keyword().is_prefix_of(line),
        pattern_compiles(INSERT_PATTERN@),
        captures_of(INSERT_PATTERN@, line) == Some(
            seq![Some(whole), Some(id), Some(username), Some(email)],
        ),
        is_decimal(id),
        decimal_value(id) <= u8::MAX,
        username.len() <= FIELD_WIDTH,
        email.len() <= FIELD_WIDTH,
    ensures
        step(s, line).running,
        step(s, line).rows.len() == s.rows.len() + 1,
        step(s, line).rows.drop_last() == s.rows,
        step(s, line).rows.last().id == decimal_value(id),
        step(s, line).rows.last().username.take(username.len() as int) == username,
        step(s, line).rows.last().email.take(email.len() as int) == email,
        forall|i: int|
            username.len() <= i < FIELD_WIDTH ==> step(s, line).rows.last().username[i] == '\0',
        forall|i: int|
            email.len() <= i < FIELD_WIDTH ==> step(s, line).rows.last().email[i] == '\0',
{
    decimal_value_nonnegative(id);
    assert(line[0] == insert_keyword()[0]);
    assert(spec_classify(line) == Command::Statement(Statement::Insert));
    let t = step(s, line);
    assert(t.rows.drop_last() =~= s.rows);
    assert(t.rows.last().username.take(username.len() as int) =~= username);
    assert(t.rows.last().email.take(email.len() as int) =~= email);
}

/// A line that is no known meta command and no statement, or an insert line
/// that yields no record, leaves the session as it was.
pub proof fn rejected_line_keeps_table(s: ShellView, line: Seq<char>)
    requires
        s.running,
        spec_classify(line) is UnrecognizedMeta || spec_classify(line) is Unrecognized || (
        spec_classify(line) == Command::Statement(Statement::Insert) && appended(line) is None),
    ensures
        step(s, line) == s,
{
}

/// A select leaves the session as it was, so two selects in a row show the
/// same records.
pub proof fn select_is_idempotent(s: ShellView, line: Seq<char>)
    requires
        spec_classify(line) == Command::Statement(Statement::Select),
    ensures
        step(s, line) == s,
        step(step(s, line), line) == step(s, line),
{
}

/// Records already stored keep their places whatever lines follow: new
/// records only ever come after them, in the order they were inserted.
pub proof fn stored_records_keep_order(s: ShellView, lines: Seq<Seq<char>>)
    ensures
        s.rows.is_prefix_of(run(s, lines).rows),
    decreases lines.len(),
{
    if lines.len() > 0 {
        let t = step(s, lines[0]);
        assert(s.rows.is_prefix_of(t.rows)) by {
            if t.rows != s.rows {
                assert(t.rows.subrange(0, s.rows.len() as int) =~= s.rows);
            }
        }
        stored_records_keep_order(t, lines.drop_first());
    }
}

/// Once the session has stopped, no line changes it.
pub proof fn stopped_session_ignores_lines(s: ShellView, lines: Seq<Seq<char>>)
    requires
        !s.running,
    ensures
        run(s, lines) == s,
    decreases lines.len(),
{
    if lines.len() > 0 {
        stopped_session_ignores_lines(s, lines.drop_first());
    }
}

/// `.exit` stops the session: the lines queued after it are not handled and
/// the table stays as it was.
pub proof fn exit_stops_session(s: ShellView, lines: Seq<Seq<char>>)
    requires
        s.running,
        lines.len() > 0,
        spec_classify(lines[0]) == Command::Meta(MetaCommand::Exit),
    ensures
        run(s, lines) == (ShellView { rows: s.rows, running: false }),
{
    stopped_session_ignores_lines(step(s, lines[0]), lines.drop_first());
}

} // verus!
