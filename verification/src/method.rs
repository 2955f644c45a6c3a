//! HTTP request method tokens.

use crate::text::{eq_ignore_ascii_case, fold};
use vstd::prelude::*;
use vstd::std_specs::cmp::PartialEqSpec;

verus! {

/// HTTP method (eg. `GET`, `POST`, etc.)
///
/// The user chooses the method he wants; any token is accepted.
///
/// Comparison between two `Method`s ignores ASCII case.
#[derive(Clone, Debug)]
pub struct Method(String);

impl View for Method {
    type V = Seq<char>;

    closed spec fn view(&self) -> Seq<char> {
        self.0@
    }
}

impl Method {
    /// Builds a method from a raw token, stored verbatim: no trimming and
    /// no case normalization; case-insensitivity applies only when
    /// methods are compared. Any input is accepted; construction never
    /// fails. Two case-variants of one token therefore parse to equal
    /// `Method`s: their folded views — the relation `==` on `Method`
    /// tests — are the folded views of the inputs themselves.
    pub fn parse(token: &str) -> (method: Method)
        ensures
            method@ == token@,
    {
        Method(String::from_str(token))
    }

    /// The method token as originally written (original case kept).
    pub fn as_str<'a>(&'a self) -> (s: &'a String)
        ensures
            s@ == self@,
    {
        &self.0
    }

    /// ASCII case-insensitive comparison against a fixed literal, the
    /// primary mechanism for method dispatch by routing logic.
    pub fn equiv(&self, other: &'static str) -> (r: bool)
        ensures
            r == (fold(self@) == fold(other@)),
    {
        eq_ignore_ascii_case(other, self.0.as_str())
    }
}

impl PartialEq for Method {
    fn eq(&self, other: &Method) -> (r: bool) {
        eq_ignore_ascii_case(self.0.as_str(), other.0.as_str())
    }
}

impl Eq for Method {}

impl vstd::std_specs::cmp::PartialEqSpecImpl for Method {
    open spec fn obeys_eq_spec() -> bool {
        true
    }

    open spec fn eq_spec(&self, other: &Method) -> bool {
        fold(self@) == fold(other@)
    }
}

/// Two ASCII case-variants of one token parse to equal `Method`s: for
/// methods built as `parse` builds them, from raw tokens whose folded
/// views coincide, the relation `==` on `Method` holds.
pub proof fn lemma_parse_method_case_insensitive(
    s1: Seq<char>,
    s2: Seq<char>,
    m1: &Method,
    m2: &Method,
)
    requires
        fold(s1) == fold(s2),
        m1@ == s1,
        m2@ == s2,
    ensures
        m1.eq_spec(m2),
{
}

} // verus!
