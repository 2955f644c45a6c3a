//! HTTP headers: the case-insensitive field name and the
//! `<name>:<value>` line grammar.

use crate::text::{
    eq_ignore_ascii_case, fold, lemma_trim_respects_fold, trim, trim_spec, trim_start,
    trim_start_spec,
};
use vstd::prelude::*;
use vstd::std_specs::cmp::PartialEqSpec;

verus! {

/// Field of a header (eg. `Content-Type`, `Content-Length`, etc.)
///
/// Comparison between two `HeaderField`s ignores ASCII case.
#[derive(Clone, Debug)]
pub struct HeaderField(String);

impl View for HeaderField {
    type V = Seq<char>;

    closed spec fn view(&self) -> Seq<char> {
        self.0@
    }
}

impl HeaderField {
    /// Builds a field name from raw text, trimming surrounding white
    /// space. Any input is accepted; construction never fails.
    pub fn parse(text: &str) -> (field: HeaderField)
        ensures
            field@ == trim_spec(text@),
    {
        HeaderField(String::from_str(trim(text)))
    }

    /// The field name as originally written (original case kept).
    pub fn as_str<'a>(&'a self) -> (s: &'a String)
        ensures
            s@ == self@,
    {
        &self.0
    }

    /// ASCII case-insensitive comparison against a fixed literal, used for
    /// fast dispatch on well-known field names.
    pub fn equiv(&self, other: &'static str) -> (r: bool)
        ensures
            r == (fold(self@) == fold(other@)),
    {
        eq_ignore_ascii_case(other, self.0.as_str())
    }
}

impl PartialEq for HeaderField {
    fn eq(&self, other: &HeaderField) -> (r: bool) {
        eq_ignore_ascii_case(self.0.as_str(), other.0.as_str())
    }
}

impl Eq for HeaderField {}

impl vstd::std_specs::cmp::PartialEqSpecImpl for HeaderField {
    open spec fn obeys_eq_spec() -> bool {
        true
    }

    open spec fn eq_spec(&self, other: &HeaderField) -> bool {
        fold(self@) == fold(other@)
    }
}

/// Two ASCII case-variants of one token parse to equal `HeaderField`s:
/// for fields built as `parse` builds them, from raw texts whose folded
/// views coincide, the relation `==` on `HeaderField` holds.
pub proof fn lemma_parse_field_case_insensitive(
    s1: Seq<char>,
    s2: Seq<char>,
    f1: &HeaderField,
    f2: &HeaderField,
)
    requires
        fold(s1) == fold(s2),
        f1@ == trim_spec(s1),
        f2@ == trim_spec(s2),
    ensures
        f1.eq_spec(f2),
{
    lemma_trim_respects_fold(s1, s2);
}

/// Failure to parse a raw header line.
#[derive(Clone, Copy, Debug, PartialEq, Eq, Structural)]
pub enum ParseError {
    /// The line holds no colon, so no field name can be split off.
    MalformedHeaderLine,
}

/// Represents a HTTP header: a field name and its value.
///
/// The easiest way to create a `Header` object is to call `parse`.
#[derive(Clone, Debug)]
pub struct Header {
    pub field: HeaderField,
    pub value: String,
}

/// The position of the first colon in `s`, or `s.len()` when there is
/// none.
pub open spec fn colon_index(s: Seq<char>) -> int
    decreases s.len(),
{
    if s.len() == 0 {
        0
    } else if s[0] == ':' {
        0
    } else {
        1 + colon_index(s.drop_first())
    }
}

/// Whether `s` holds a colon, so that it can be split into a field name
/// and a value.
pub open spec fn has_colon(s: Seq<char>) -> bool {
    exists|i: int| 0 <= i < s.len() && s[i] == ':'
}

/// The field-name part of a header line: everything left of the first
/// colon, trimmed.
pub open spec fn field_of(s: Seq<char>) -> Seq<char> {
    trim_spec(s.subrange(0, colon_index(s)))
}

/// The value part of a header line: everything right of the first colon,
/// with only the leading white space removed, so that the conventional
/// space after the colon is not part of the value; trailing white space
/// belongs to the value and is kept.
pub open spec fn value_of(s: Seq<char>) -> Seq<char> {
    trim_start_spec(s.subrange(colon_index(s) + 1, s.len() as int))
}

/// The canonical text of a header: the field name, a colon, one space,
/// the value.
pub open spec fn format_header(field: Seq<char>, value: Seq<char>) -> Seq<char> {
    field + seq![':', ' '] + value
}

/// The first-colon position lies within the line, no colon stands before
/// it, and it points at a colon exactly when the line holds one.
pub proof fn lemma_colon_index(s: Seq<char>)
    ensures
        0 <= colon_index(s) <= s.len(),
        forall|k: int| 0 <= k < colon_index(s) ==> s[k] != ':',
        has_colon(s) <==> colon_index(s) < s.len(),
        colon_index(s) < s.len() ==> s[colon_index(s)] == ':',
    decreases s.len(),
{
    if s.len() == 0 {
    } else if s[0] == ':' {
        assert(has_colon(s));
    } else {
        let t = s.drop_first();
        lemma_colon_index(t);
        assert forall|k: int| 0 <= k < colon_index(s) implies s[k] != ':' by {
            if k > 0 {
                assert(t[k - 1] == s[k]);
            }
        }
        if has_colon(s) {
            let i = choose|i: int| 0 <= i < s.len() && s[i] == ':';
            assert(t[i - 1] == ':');
            assert(has_colon(t));
        }
        if has_colon(t) {
            let j = choose|j: int| 0 <= j < t.len() && t[j] == ':';
            assert(s[j + 1] == ':');
            assert(has_colon(s));
        }
        if colon_index(t) < t.len() {
            assert(s[colon_index(s)] == t[colon_index(t)]);
        }
    }
}

/// Any position with no colon before it, and a colon at it unless it is
/// the line's end, is the first-colon position.
pub proof fn lemma_colon_index_is(s: Seq<char>, i: int)
    requires
        0 <= i <= s.len(),
        forall|k: int| 0 <= k < i ==> s[k] != ':',
        i < s.len() ==> s[i] == ':',
    ensures
        colon_index(s) == i,
    decreases i,
{
    if i == 0 {
    } else {
        let t = s.drop_first();
        assert(forall|k: int| 0 <= k < i - 1 ==> t[k] == s[k + 1] && s[k + 1] != ':');
        if i - 1 < t.len() {
            assert(t[i - 1] == s[i]);
        }
        lemma_colon_index_is(t, i - 1);
    }
}

impl Header {
    /// Parses a raw header line of the shape `<name>:<value>`, splitting
    /// on the first colon only: later colons belong to the value. The
    /// field name is trimmed; the value loses only its leading white
    /// space, so the conventional space after the colon does not reach
    /// it, while trailing white space is kept. Fails with
    /// `MalformedHeaderLine` exactly when the line holds no colon.
    pub fn parse(line: &str) -> (r: Result<Header, ParseError>)
        ensures
            r is Ok <==> has_colon(line@),
            r matches Ok(h) ==> h.field@ == field_of(line@) && h.value@ == value_of(line@),
            r matches Err(e) ==> e == ParseError::MalformedHeaderLine,
    {
        let n = line.unicode_len();
        let mut i: usize = 0;
        while i < n && line.get_char(i) != ':'
            invariant
                0 <= i <= n,
                n == line@.len(),
                forall|k: int| 0 <= k < i ==> line@[k] != ':',
            decreases n - i,
        {
            i = i + 1;
        }
        proof {
            lemma_colon_index_is(line@, i as int);
            lemma_colon_index(line@);
        }
        if i == n {
            Err(ParseError::MalformedHeaderLine)
        } else {
            let left = line.substring_char(0, i);
            let right = line.substring_char(i + 1, n);
            Ok(Header {
                field: HeaderField::parse(left),
                value: String::from_str(trim_start(right)),
            })
        }
    }

    /// The canonical text of this header: `<field>: <value>`, always a
    /// single space after the colon, however the original input was
    /// spaced.
    pub fn to_text(&self) -> (s: String)
        ensures
            s@ == format_header(self.field@, self.value@),
    {
        let mut s = self.field.as_str().clone();
        s.append(": ");
        s.append(self.value.as_str());
        proof {
            reveal_strlit(": ");
            assert(s@ =~= format_header(self.field@, self.value@));
        }
        s
    }
}

/// Round trip with whitespace normalization around the colon: formatting
/// a header whose field is trimmed and colon-free, then re-parsing the
/// line, returns the field unchanged and the value with its leading white
/// space removed. The space the canonical text inserts after the colon
/// does not reach the re-parsed value, and a value without leading white
/// space comes back exactly equal.
pub proof fn lemma_format_parse_round_trip(field: Seq<char>, value: Seq<char>)
    requires
        trim_spec(field) == field,
        forall|k: int| 0 <= k < field.len() ==> field[k] != ':',
    ensures
        has_colon(format_header(field, value)),
        field_of(format_header(field, value)) == field,
        value_of(format_header(field, value)) == trim_start_spec(value),
        trim_start_spec(value) == value ==> value_of(format_header(field, value)) == value,
{
    let line = format_header(field, value);
    assert(line[field.len() as int] == ':');
    assert forall|k: int| 0 <= k < field.len() implies line[k] != ':' by {
        assert(line[k] == field[k]);
    }
    lemma_colon_index_is(line, field.len() as int);
    lemma_colon_index(line);
    assert(line.subrange(0, field.len() as int) =~= field);
    assert(line.subrange(field.len() as int + 1, line.len() as int) =~= seq![' '] + value);
    assert((seq![' '] + value).drop_first() =~= value);
    assert(trim_start_spec(seq![' '] + value) == trim_start_spec(value));
}

} // verus!
