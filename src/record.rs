use vstd::prelude::*;

verus! {

/// Number of character slots in a fixed-width text field.
pub const FIELD_WIDTH: usize = 32;

/// The characters a fixed-width field holds for `s`: the first slots take
/// `s` in order, the rest hold `'\0'`, and what does not fit is dropped.
pub open spec fn fixed_width(s: Seq<char>) -> Seq<char> {
    Seq::new(FIELD_WIDTH as nat, |i: int| if i < s.len() { s[i] } else { '\0' })
}

/// Copies `input` into a zero-padded buffer of `FIELD_WIDTH` characters,
/// silently dropping everything past the last slot.
pub fn to_fixlen_array(input: &str) -> (r: [char; 32])
    ensures
        r@ == fixed_width(input@),
{
    let mut result: [char; 32] = ['\0'; 32];
    let n = input.unicode_len();
    let end: usize = if n < FIELD_WIDTH { n } else { FIELD_WIDTH };
    let mut i: usize = 0;
    while i < end
        invariant
            end <= FIELD_WIDTH,
            end <= input@.len(),
            end == input@.len() || end == FIELD_WIDTH,
            i <= end,
            result@.len() == FIELD_WIDTH,
            forall|j: int| 0 <= j < i ==> result@[j] == input@[j],
            forall|j: int| i <= j < FIELD_WIDTH ==> result@[j] == '\0',
        decreases end - i,
    {
        result[i] = input.get_char(i);
        i = i + 1;
    }
    assert(result@ =~= fixed_width(input@));
    result
}

/// What a record holds, as mathematical values.
pub struct RecordView {
    pub id: u8,
    pub username: Seq<char>,
    pub email: Seq<char>,
}

/// One row of the table: an identifier and two fixed-width text fields.
#[derive(Clone, Copy, Debug, PartialEq, Eq)]
pub struct Schema {
    pub id: u8,
    pub username: [char; 32],
    pub email: [char; 32],
}

impl View for Schema {
    type V = RecordView;

    open spec fn view(&self) -> RecordView {
        RecordView { id: self.id, username: self.username@, email: self.email@ }
    }
}

/// The records of a session, in the order they were appended.
#[derive(Debug)]
pub struct Table {
    rows: Vec<Schema>,
}

impl View for Table {
    type V = Seq<RecordView>;

    closed spec fn view(&self) -> Seq<RecordView> {
        self.rows@.map_values(|r: Schema| r@)
    }
}

impl Table {
    /// An empty table.
    pub fn new() -> (t: Table)
        ensures
            t@ == Seq::<RecordView>::empty(),
    {
        let t = Table { rows: Vec::new() };
        assert(t@ =~= Seq::<RecordView>::empty());
        t
    }

    /// Adds `record` after every record already stored.
    pub fn append(&mut self, record: Schema)
        ensures
            final(self)@ == old(self)@.push(record@),
    {
        self.rows.push(record);
        assert(self@ =~= old(self)@.push(record@));
    }

    /// Every stored record, in insertion order; the table is left as it is.
    pub fn scan(&self) -> (r: &[Schema])
        ensures
            r@.map_values(|s: Schema| s@) == self@,
    {
        self.rows.as_slice()
    }
}

} // verus!
