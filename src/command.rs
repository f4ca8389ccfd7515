use vstd::prelude::*;

verus! {

/// Commands addressed to the shell itself.
#[derive(Clone, Copy, Debug, PartialEq, Eq, Structural)]
pub enum MetaCommand {
    Exit,
}

/// Data statements, recognised by their leading keyword.
#[derive(Clone, Copy, Debug, PartialEq, Eq, Structural)]
pub enum Statement {
    Insert,
    Select,
}

/// How a line is to be handled.
#[derive(Clone, Copy, Debug, PartialEq, Eq, Structural)]
pub enum Command {
    Meta(MetaCommand),
    /// A line starting with `.` that names no known meta command.
    UnrecognizedMeta,
    Statement(Statement),
    /// Anything else.
    Unrecognized,
}

pub open spec fn exit_text() -> Seq<char> {
    seq!['.', 'e', 'x', 'i', 't']
}

pub open spec fn insert_keyword() -> Seq<char> {
    seq!['i', 'n', 's', 'e', 'r', 't']
}

pub open spec fn select_keyword() -> Seq<char> {
    seq!['s', 'e', 'l', 'e', 'c', 't']
}

pub open spec fn spec_is_meta(s: Seq<char>) -> bool {
    s.len() > 0 && s[0] == '.'
}

pub open spec fn spec_meta(s: Seq<char>) -> Option<MetaCommand> {
    if s == exit_text() {
        Some(MetaCommand::Exit)
    } else {
        None
    }
}

/// Keywords are tried in order, `insert` before `select`; the first that
/// starts the line wins, whatever follows it.
pub open spec fn spec_statement(s: Seq<char>) -> Option<Statement> {
    if insert_keyword().is_prefix_of(s) {
        Some(Statement::Insert)
    } else if select_keyword().is_prefix_of(s) {
        Some(Statement::Select)
    } else {
        None
    }
}

pub open spec fn spec_classify(s: Seq<char>) -> Command {
    if spec_is_meta(s) {
        match spec_meta(s) {
            Some(m) => Command::Meta(m),
            None => Command::UnrecognizedMeta,
        }
    } else {
        match spec_statement(s) {
            Some(st) => Command::Statement(st),
            None => Command::Unrecognized,
        }
    }
}

/// Whether `s` begins with `prefix`.
fn starts_with(s: &str, prefix: &str) -> (r: bool)
    ensures
        r == prefix@.is_prefix_of(s@),
{
    let n = prefix.unicode_len();
    if n > s.unicode_len() {
        return false;
    }
    let mut i: usize = 0;
    while i < n
        invariant
            n == prefix@.len(),
            n <= s@.len(),
            i <= n,
            forall|j: int| 0 <= j < i ==> prefix@[j] == s@[j],
        decreases n - i,
    {
        if prefix.get_char(i) != s.get_char(i) {
            return false;
        }
        i = i + 1;
    }
    assert(prefix@ =~= s@.subrange(0, n as int));
    true
}

impl MetaCommand {
    /// A line is a meta command when it starts with `.`.
    pub fn is_meta_command(input_str: &str) -> (r: bool)
        ensures
            r == spec_is_meta(input_str@),
    {
        input_str.unicode_len() > 0 && input_str.get_char(0) == '.'
    }

    /// The meta command that the whole line names, if any.
    pub fn categorize(input_str: &str) -> (r: Option<MetaCommand>)
        ensures
            r == spec_meta(input_str@),
    {
        let exit = ".exit";
        proof {
            reveal_strlit(".exit");
        }
        assert(exit@ =~= exit_text());
        if input_str.unicode_len() == 5 && starts_with(input_str, exit) {
            assert(input_str@ =~= exit_text());
            Some(MetaCommand::Exit)
        } else {
            None
        }
    }
}

impl Statement {
    /// The statement whose keyword starts the line, `insert` tried first.
    pub fn categorize(input_str: &str) -> (r: Option<Statement>)
        ensures
            r == spec_statement(input_str@),
    {
        let insert = "insert";
        let select = "select";
        proof {
            reveal_strlit("insert");
            reveal_strlit("select");
        }
        assert(insert@ =~= insert_keyword());
        assert(select@ =~= select_keyword());
        if starts_with(input_str, insert) {
            Some(Statement::Insert)
        } else if starts_with(input_str, select) {
            Some(Statement::Select)
        } else {
            None
        }
    }
}

/// Decides whether a line is a meta command, a statement or neither.
pub fn classify(line: &str) -> (r: Command)
    ensures
        r == spec_classify(line@),
{
    if MetaCommand::is_meta_command(line) {
        match MetaCommand::categorize(line) {
            Some(m) => Command::Meta(m),
            None => Command::UnrecognizedMeta,
        }
    } else {
        match Statement::categorize(line) {
            Some(st) => Command::Statement(st),
            None => Command::Unrecognized,
        }
    }
}

} // verus!
