//! Character-level machinery shared by the protocol value types: ASCII
//! case folding, whitespace trimming, and decimal rendering.

use vstd::prelude::*;

verus! {

/// The code point of `c`, with ASCII upper-case letters folded to lower
/// case; every other character is left as it is.
pub open spec fn fold_char(c: char) -> int {
    if 65 <= c as u32 <= 90 {
        c as u32 + 32
    } else {
        c as u32 as int
    }
}

/// Case-insensitive view of a character sequence: each character replaced
/// by its folded code point. Two strings are ASCII case-variants of one
/// another exactly when their folded views are equal.
pub open spec fn fold(s: Seq<char>) -> Seq<int> {
    s.map_values(|c: char| fold_char(c))
}

/// White space, the character set that surrounding-whitespace trimming
/// removes (the Unicode `White_Space` set).
pub open spec fn is_space(c: char) -> bool {
    let u = c as u32;
    (9 <= u <= 13) || u == 32 || u == 0x85 || u == 0xA0 || u == 0x1680 || (0x2000 <= u <= 0x200A)
        || u == 0x2028 || u == 0x2029 || u == 0x202F || u == 0x205F || u == 0x3000
}

/// `s` with leading white space removed.
pub open spec fn trim_start_spec(s: Seq<char>) -> Seq<char>
    decreases s.len(),
{
    if s.len() > 0 && is_space(s[0]) {
        trim_start_spec(s.drop_first())
    } else {
        s
    }
}

/// `s` with trailing white space removed.
pub open spec fn trim_end_spec(s: Seq<char>) -> Seq<char>
    decreases s.len(),
{
    if s.len() > 0 && is_space(s[s.len() - 1]) {
        trim_end_spec(s.drop_last())
    } else {
        s
    }
}

/// `s` with surrounding white space removed.
pub open spec fn trim_spec(s: Seq<char>) -> Seq<char> {
    trim_end_spec(trim_start_spec(s))
}

/// If the first `i` characters of `s` are white space and the character at
/// `i` (when there is one) is not, trimming from the start drops exactly
/// those `i` characters.
proof fn lemma_trim_start_at(s: Seq<char>, i: int)
    requires
        0 <= i <= s.len(),
        forall|k: int| 0 <= k < i ==> is_space(s[k]),
        i < s.len() ==> !is_space(s[i]),
    ensures
        trim_start_spec(s) == s.subrange(i, s.len() as int),
    decreases i,
{
    if i == 0 {
        assert(trim_start_spec(s) =~= s.subrange(0, s.len() as int));
    } else {
        let t = s.drop_first();
        assert(forall|k: int| 0 <= k < i - 1 ==> is_space(t[k]));
        lemma_trim_start_at(t, i - 1);
        assert(t.subrange(i - 1, t.len() as int) =~= s.subrange(i, s.len() as int));
    }
}

/// If every character of `s` from position `j` on is white space and the
/// character just before `j` (when there is one) is not, trimming from the
/// end keeps exactly the first `j` characters.
proof fn lemma_trim_end_at(s: Seq<char>, j: int)
    requires
        0 <= j <= s.len(),
        forall|k: int| j <= k < s.len() ==> is_space(s[k]),
        j > 0 ==> !is_space(s[j - 1]),
    ensures
        trim_end_spec(s) == s.subrange(0, j),
    decreases s.len(),
{
    if j == s.len() {
        assert(trim_end_spec(s) =~= s.subrange(0, j));
    } else {
        let t = s.drop_last();
        assert(forall|k: int| j <= k < t.len() ==> is_space(t[k]));
        lemma_trim_end_at(t, j);
        assert(t.subrange(0, j) =~= s.subrange(0, j));
    }
}

/// Folding is blind to white space: characters equal under folding are
/// white space together or not at all, since nothing folds onto or out of
/// the white-space set.
proof fn lemma_fold_preserves_space(a: char, b: char)
    requires
        fold_char(a) == fold_char(b),
    ensures
        is_space(a) <==> is_space(b),
{
}

/// Case-variants of a sequence stay case-variants when the leading white
/// space of each is removed.
proof fn lemma_trim_start_respects_fold(s1: Seq<char>, s2: Seq<char>)
    requires
        fold(s1) == fold(s2),
    ensures
        fold(trim_start_spec(s1)) == fold(trim_start_spec(s2)),
    decreases s1.len(),
{
    assert(fold(s1).len() == s1.len());
    assert(fold(s2).len() == s2.len());
    if s1.len() > 0 {
        assert(fold_char(s1[0]) == fold(s1)[0]);
        assert(fold_char(s2[0]) == fold(s2)[0]);
        lemma_fold_preserves_space(s1[0], s2[0]);
        if is_space(s1[0]) {
            assert(fold(s1.drop_first()) =~= fold(s2.drop_first())) by {
                assert forall|k: int|
                    0 <= k < s1.len() - 1 implies fold(s1.drop_first())[k] == fold(
                    s2.drop_first(),
                )[k] by {
                    assert(s1.drop_first()[k] == s1[k + 1]);
                    assert(s2.drop_first()[k] == s2[k + 1]);
                    assert(fold_char(s1[k + 1]) == fold(s1)[k + 1]);
                    assert(fold_char(s2[k + 1]) == fold(s2)[k + 1]);
                }
            }
            lemma_trim_start_respects_fold(s1.drop_first(), s2.drop_first());
        }
    }
}

/// Case-variants of a sequence stay case-variants when the trailing white
/// space of each is removed.
proof fn lemma_trim_end_respects_fold(s1: Seq<char>, s2: Seq<char>)
    requires
        fold(s1) == fold(s2),
    ensures
        fold(trim_end_spec(s1)) == fold(trim_end_spec(s2)),
    decreases s1.len(),
{
    assert(fold(s1).len() == s1.len());
    assert(fold(s2).len() == s2.len());
    if s1.len() > 0 {
        let n = s1.len() - 1;
        assert(fold_char(s1[n]) == fold(s1)[n]);
        assert(fold_char(s2[n]) == fold(s2)[n]);
        lemma_fold_preserves_space(s1[n], s2[n]);
        if is_space(s1[n]) {
            assert(fold(s1.drop_last()) =~= fold(s2.drop_last())) by {
                assert forall|k: int|
                    0 <= k < s1.len() - 1 implies fold(s1.drop_last())[k] == fold(
                    s2.drop_last(),
                )[k] by {
                    assert(s1.drop_last()[k] == s1[k]);
                    assert(s2.drop_last()[k] == s2[k]);
                    assert(fold_char(s1[k]) == fold(s1)[k]);
                    assert(fold_char(s2[k]) == fold(s2)[k]);
                }
            }
            lemma_trim_end_respects_fold(s1.drop_last(), s2.drop_last());
        }
    }
}

/// ASCII case-variants trim identically: when two character sequences are
/// equal under case folding, their trimmed forms are equal under case
/// folding too. In particular, two case-variants of one token still
/// compare equal after each is trimmed.
pub(crate) proof fn lemma_trim_respects_fold(s1: Seq<char>, s2: Seq<char>)
    requires
        fold(s1) == fold(s2),
    ensures
        fold(trim_spec(s1)) == fold(trim_spec(s2)),
{
    lemma_trim_start_respects_fold(s1, s2);
    lemma_trim_end_respects_fold(trim_start_spec(s1), trim_start_spec(s2));
}

/// Whether `c` is white space (run-time counterpart of `is_space`).
fn is_space_char(c: char) -> (r: bool)
    ensures
        r == is_space(c),
{
    let u = c as u32;
    (9 <= u && u <= 13) || u == 32 || u == 0x85 || u == 0xA0 || u == 0x1680 || (0x2000 <= u && u
        <= 0x200A) || u == 0x2028 || u == 0x2029 || u == 0x202F || u == 0x205F || u == 0x3000
}

/// Removes leading white space from a string slice; trailing white space
/// is kept.
pub fn trim_start(s: &str) -> (r: &str)
    ensures
        r@ == trim_start_spec(s@),
{
    let n = s.unicode_len();
    let mut i: usize = 0;
    while i < n && is_space_char(s.get_char(i))
        invariant
            0 <= i <= n,
            n == s@.len(),
            forall|k: int| 0 <= k < i ==> is_space(s@[k]),
        decreases n - i,
    {
        i = i + 1;
    }
    proof {
        lemma_trim_start_at(s@, i as int);
    }
    s.substring_char(i, n)
}

/// Removes leading and trailing white space from a string slice.
pub fn trim(s: &str) -> (r: &str)
    ensures
        r@ == trim_spec(s@),
{
    let n = s.unicode_len();
    let mut i: usize = 0;
    while i < n && is_space_char(s.get_char(i))
        invariant
            0 <= i <= n,
            n == s@.len(),
            forall|k: int| 0 <= k < i ==> is_space(s@[k]),
        decreases n - i,
    {
        i = i + 1;
    }
    let mut j: usize = n;
    while j > i && is_space_char(s.get_char(j - 1))
        invariant
            i <= j <= n,
            n == s@.len(),
            forall|k: int| j <= k < n ==> is_space(s@[k]),
        decreases j,
    {
        j = j - 1;
    }
    proof {
        lemma_trim_start_at(s@, i as int);
        let t = s@.subrange(i as int, n as int);
        assert forall|k: int| j - i <= k < t.len() implies is_space(t[k]) by {
            assert(t[k] == s@[i + k]);
        }
        if j > i {
            assert(t[j - i - 1] == s@[j - 1]);
        }
        lemma_trim_end_at(t, j - i);
        assert(t.subrange(0, j - i) =~= s@.subrange(i as int, j as int));
    }
    s.substring_char(i, j)
}

/// Run-time counterpart of `fold_char`.
fn fold_char_exec(c: char) -> (r: u32)
    ensures
        r as int == fold_char(c),
{
    let u = c as u32;
    if 65 <= u && u <= 90 {
        u + 32
    } else {
        u
    }
}

/// ASCII case-insensitive equality of two string slices: the lengths are
/// equal and the folded code points agree position by position.
pub fn eq_ignore_ascii_case(a: &str, b: &str) -> (r: bool)
    ensures
        r == (fold(a@) == fold(b@)),
{
    let na = a.unicode_len();
    let nb = b.unicode_len();
    if na != nb {
        proof {
            assert(fold(a@).len() != fold(b@).len());
        }
        return false;
    }
    let mut i: usize = 0;
    while i < na
        invariant
            0 <= i <= na,
            na == a@.len(),
            na == b@.len(),
            forall|k: int| 0 <= k < i ==> fold_char(a@[k]) == fold_char(b@[k]),
        decreases na - i,
    {
        let ca = fold_char_exec(a.get_char(i));
        let cb = fold_char_exec(b.get_char(i));
        if ca != cb {
            proof {
                assert(fold(a@)[i as int] != fold(b@)[i as int]);
            }
            return false;
        }
        i = i + 1;
    }
    proof {
        assert(fold(a@) =~= fold(b@));
    }
    true
}

/// The character for one decimal digit.
pub open spec fn digit_char(d: int) -> char {
    if d == 0 {
        '0'
    } else if d == 1 {
        '1'
    } else if d == 2 {
        '2'
    } else if d == 3 {
        '3'
    } else if d == 4 {
        '4'
    } else if d == 5 {
        '5'
    } else if d == 6 {
        '6'
    } else if d == 7 {
        '7'
    } else if d == 8 {
        '8'
    } else {
        '9'
    }
}

/// The decimal representation of `n`, most significant digit first, with
/// no leading zeroes (`0` itself is the single digit `0`).
pub open spec fn dec_rep(n: nat) -> Seq<char>
    decreases n,
{
    if n < 10 {
        seq![digit_char(n as int)]
    } else {
        dec_rep(n / 10).push(digit_char((n % 10) as int))
    }
}

/// The text of one decimal digit.
fn digit_str(d: u64) -> (s: &'static str)
    requires
        d < 10,
    ensures
        s@ == seq![digit_char(d as int)],
{
    let s: &'static str = match d {
        0 => "0",
        1 => "1",
        2 => "2",
        3 => "3",
        4 => "4",
        5 => "5",
        6 => "6",
        7 => "7",
        8 => "8",
        _ => "9",
    };
    proof {
        reveal_strlit("0");
        reveal_strlit("1");
        reveal_strlit("2");
        reveal_strlit("3");
        reveal_strlit("4");
        reveal_strlit("5");
        reveal_strlit("6");
        reveal_strlit("7");
        reveal_strlit("8");
        reveal_strlit("9");
        assert(s@ =~= seq![digit_char(d as int)]);
    }
    s
}

/// Renders `n` in decimal.
pub fn u64_to_decimal(n: u64) -> (s: String)
    ensures
        s@ == dec_rep(n as nat),
    decreases n,
{
    if n < 10 {
        String::from_str(digit_str(n))
    } else {
        let mut s = u64_to_decimal(n / 10);
        s.append(digit_str(n % 10));
        proof {
            assert(s@ =~= dec_rep(n as nat));
        }
        s
    }
}

} // verus!
