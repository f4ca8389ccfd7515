use vstd::prelude::*;
use regex::Regex;
use crate::record::{fixed_width, to_fixlen_array, RecordView, Schema, FIELD_WIDTH};

verus! {

/// `regex::Regex`, a compiled pattern, carried through as an opaque value.
#[verifier::external_type_specification]
#[verifier::external_body]
pub struct ExRegex(Regex);

/// `regex::Error`, why a pattern did not compile, carried through as an opaque value.
#[verifier::external_type_specification]
#[verifier::external_body]
pub struct ExRegexError(regex::Error);

/// The grammar of an insert statement: the keyword, an unsigned integer, a
/// word and an e-mail address, separated by single spaces, and nothing else
/// on the line.
pub const INSERT_PATTERN: &'static str = r"^insert (?P<id>\d+) (?P<username>\w+) (?P<email>\w+@\w+\.\w+)$";

/// Why an insert statement yields no record.
#[derive(Debug)]
pub enum ParseError {
    /// The grammar itself could not be compiled.
    RegexCreation(regex::Error),
    /// The line does not match the grammar.
    NoRegexMatch,
    /// The identifier is not a number written in the digits `0` to `9`.
    InvalidId,
    /// The identifier does not fit in a `u8`.
    IdOutOfRange,
    /// The username or the e-mail is longer than a fixed-width field.
    FieldTooLong,
}

impl From<regex::Error> for ParseError {
    fn from(err: regex::Error) -> (r: ParseError) {
        ParseError::RegexCreation(err)
    }
}

impl vstd::std_specs::convert::FromSpecImpl<regex::Error> for ParseError {
    open spec fn obeys_from_spec() -> bool {
        true
    }

    open spec fn from_spec(v: regex::Error) -> ParseError {
        ParseError::RegexCreation(v)
    }
}

pub open spec fn is_digit(c: char) -> bool {
    '0' <= c && c <= '9'
}

/// A non-empty run of the ASCII digits.
pub open spec fn is_decimal(s: Seq<char>) -> bool {
    s.len() > 0 && forall|i: int| 0 <= i < s.len() ==> is_digit(#[trigger] s[i])
}

/// The number that the digits of `s` denote in base ten.
pub open spec fn decimal_value(s: Seq<char>) -> int
    decreases s.len(),
{
    if s.len() == 0 {
        0
    } else {
        decimal_value(s.drop_last()) * 10 + (s.last() as int - '0' as int)
    }
}

/// The digits of a decimal number never denote a negative value.
pub proof fn decimal_value_nonnegative(s: Seq<char>)
    requires
        forall|i: int| 0 <= i < s.len() ==> is_digit(#[trigger] s[i]),
    ensures
        decimal_value(s) >= 0,
    decreases s.len(),
{
    if s.len() > 0 {
        decimal_value_nonnegative(s.drop_last());
    }
}

/// What the identifier text of an insert statement stands for.
pub open spec fn id_of(s: Seq<char>) -> Result<u8, ParseError> {
    if !is_decimal(s) {
        Err(ParseError::InvalidId)
    } else if decimal_value(s) > u8::MAX {
        Err(ParseError::IdOutOfRange)
    } else {
        Ok(decimal_value(s) as u8)
    }
}

/// Reads the identifier of an insert statement, rejecting what is not a
/// decimal number or does not fit in a `u8`.
pub fn parse_id(text: &str) -> (r: Result<u8, ParseError>)
    ensures
        r == id_of(text@),
{
    let n = text.unicode_len();
    if n == 0 {
        return Err(ParseError::InvalidId);
    }
    // value of the digits read so far, capped just above the range of `u8`
    let mut acc: u32 = 0;
    let mut i: usize = 0;
    while i < n
        invariant
            n == text@.len(),
            i <= n,
            forall|j: int| 0 <= j < i ==> is_digit(#[trigger] text@[j]),
            acc as int == if decimal_value(text@.subrange(0, i as int)) > 256 {
                256
            } else {
                decimal_value(text@.subrange(0, i as int))
            },
        decreases n - i,
    {
        let c = text.get_char(i);
        if c < '0' || c > '9' {
            return Err(ParseError::InvalidId);
        }
        let d = (c as u32) - ('0' as u32);
        assert(text@.subrange(0, i as int + 1).drop_last() =~= text@.subrange(0, i as int));
        acc = if acc * 10 + d > 256 { 256 } else { acc * 10 + d };
        i = i + 1;
    }
    assert(text@.subrange(0, n as int) =~= text@);
    if acc > 255 {
        Err(ParseError::IdOutOfRange)
    } else {
        Ok(acc as u8)
    }
}

/// Whether `regex::Regex::new` accepts the pattern text.
pub uninterp spec fn pattern_compiles(pattern: Seq<char>) -> bool;

/// The capture groups of the leftmost-first match of `pattern` in `text`
/// under `regex::Regex::captures`: the whole match first, then each group in
/// the order of its opening parenthesis; `None` where nothing matches.
pub uninterp spec fn captures_of(pattern: Seq<char>, text: Seq<char>) -> Option<Seq<Option<Seq<char>>>>;

/// The text of each capture group, as mathematical values.
pub open spec fn groups_view(g: Option<Vec<Option<String>>>) -> Option<Seq<Option<Seq<char>>>> {
    match g {
        None => None,
        Some(v) => Some(
            v@.map_values(
                |o: Option<String>|
                    match o {
                        Some(s) => Some(s@),
                        None => None,
                    },
            ),
        ),
    }
}

/// A compiled pattern, together with the text it was compiled from.
struct Grammar {
    re: Regex,
    pattern: Ghost<Seq<char>>,
}

impl Grammar {
    closed spec fn source(&self) -> Seq<char> {
        self.pattern@
    }
}

/// Relies on `regex::Regex::new`: compiles the pattern, and whether it
/// succeeds depends on the pattern text alone.
#[verifier::external_body]
fn compile(pattern: &str) -> (r: Result<Grammar, regex::Error>)
    ensures
        r is Ok <==> pattern_compiles(pattern@),
        r is Ok ==> r->Ok_0.source() == pattern@,
{
    match Regex::new(pattern) {
        Ok(re) => Ok(Grammar { re, pattern: Ghost(pattern@) }),
        Err(e) => Err(e),
    }
}

/// Relies on `regex::Regex::captures` and `Captures::iter`: the text of every
/// group of the leftmost-first match, `None` for a group that took no part.
#[verifier::external_body]
fn captures(g: &Grammar, text: &str) -> (r: Option<Vec<Option<String>>>)
    ensures
        groups_view(r) == captures_of(g.source(), text@),
{
    g.re.captures(text).map(|caps| caps.iter().map(|m| m.map(|m| m.as_str().to_string())).collect())
}

/// Group `i` of a match, `None` where it is absent.
pub open spec fn group(gs: Seq<Option<Seq<char>>>, i: int) -> Option<Seq<char>> {
    if 0 <= i < gs.len() {
        gs[i]
    } else {
        None
    }
}

/// The record that the capture groups of an insert statement describe, or
/// why they describe none. Over-long text fields are rejected, not cut.
pub open spec fn insert_fields(caps: Option<Seq<Option<Seq<char>>>>) -> Result<RecordView, ParseError> {
    match caps {
        None => Err(ParseError::NoRegexMatch),
        Some(gs) => match (group(gs, 1), group(gs, 2), group(gs, 3)) {
            (Some(id), Some(username), Some(email)) => match id_of(id) {
                Err(e) => Err(e),
                Ok(n) => if username.len() > FIELD_WIDTH || email.len() > FIELD_WIDTH {
                    Err(ParseError::FieldTooLong)
                } else {
                    Ok(
                        RecordView {
                            id: n,
                            username: fixed_width(username),
                            email: fixed_width(email),
                        },
                    )
                },
            },
            _ => Err(ParseError::NoRegexMatch),
        },
    }
}

/// A parse result, with the record seen as mathematical values.
pub open spec fn result_view(r: Result<Schema, ParseError>) -> Result<RecordView, ParseError> {
    match r {
        Ok(s) => Ok(s@),
        Err(e) => Err(e),
    }
}

/// Builds the record that the capture groups of an insert statement describe.
pub fn record_from_captures(groups: Option<Vec<Option<String>>>) -> (r: Result<Schema, ParseError>)
    ensures
        result_view(r) == insert_fields(groups_view(groups)),
{
    let ghost caps = groups_view(groups);
    let gs = match groups {
        None => {
            return Err(ParseError::NoRegexMatch);
        },
        Some(gs) => gs,
    };
    if gs.len() < 4 {
        return Err(ParseError::NoRegexMatch);
    }
    let ghost gv = caps->Some_0;
    assert(group(gv, 1) == match gs@[1] { Some(s) => Some(s@), None => None::<Seq<char>> });
    assert(group(gv, 2) == match gs@[2] { Some(s) => Some(s@), None => None::<Seq<char>> });
    assert(group(gv, 3) == match gs@[3] { Some(s) => Some(s@), None => None::<Seq<char>> });
    match (&gs[1], &gs[2], &gs[3]) {
        (Some(id), Some(username), Some(email)) => {
            let n = match parse_id(id.as_str()) {
                Ok(n) => n,
                Err(e) => {
                    return Err(e);
                },
            };
            if username.as_str().unicode_len() > FIELD_WIDTH || email.as_str().unicode_len() > FIELD_WIDTH {
                return Err(ParseError::FieldTooLong);
            }
            Ok(
                Schema {
                    id: n,
                    username: to_fixlen_array(username.as_str()),
                    email: to_fixlen_array(email.as_str()),
                },
            )
        },
        _ => Err(ParseError::NoRegexMatch),
    }
}

/// Parses an insert statement into a record. The whole line must match the
/// grammar: extra fields or text around it are rejected.
pub fn parse_insert(input_str: &str) -> (r: Result<Schema, ParseError>)
    ensures
        pattern_compiles(INSERT_PATTERN@) ==> result_view(r) == insert_fields(
            captures_of(INSERT_PATTERN@, input_str@),
        ),
        !pattern_compiles(INSERT_PATTERN@) ==> r is Err && r->Err_0 is RegexCreation,
{
    let grammar = match compile(INSERT_PATTERN) {
        Ok(g) => g,
        Err(e) => {
            return Err(ParseError::from(e));
        },
    };
    record_from_captures(captures(&grammar, input_str))
}

} // verus!
