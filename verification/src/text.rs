//! Character-level string utilities: case normalization, equality,
//! lexicographic order, suffix tests, and splitting a label on the reserved
//! delimiter `-`. Everything here is stated over `Seq<char>` views.

use vstd::prelude::*;
use vstd::string::StrSliceExecFns;

verus! {

/// ASCII lower-case letters map to their upper-case form; every other
/// character is left unchanged.
pub open spec fn upper_char(c: char) -> char {
    if 'a' <= c && c <= 'z' {
        ((c as int) - 32) as char
    } else {
        c
    }
}

pub open spec fn upper_seq(s: Seq<char>) -> Seq<char> {
    Seq::new(s.len(), |i: int| upper_char(s[i]))
}

pub fn char_to_upper(c: char) -> (r: char)
    ensures
        r == upper_char(c),
{
    if 'a' <= c && c <= 'z' {
        let b: u8 = c as u8;
        (b - 32) as char
    } else {
        c
    }
}

/// Relies on `String::push` from std: appends one character at the end.
#[verifier::external_body]
pub(crate) fn push_char(s: &mut String, c: char)
    ensures
        final(s)@ == old(s)@.push(c),
{
    s.push(c);
}

/// Upper-case a string, character by character.
pub fn to_upper(s: &str) -> (r: String)
    ensures
        r@ == upper_seq(s@),
{
    let n = s.unicode_len();
    let mut out = String::new();
    let mut i: usize = 0;
    while i < n
        invariant
            n == s@.len(),
            i <= n,
            out@ =~= upper_seq(s@).subrange(0, i as int),
        decreases n - i,
    {
        let c = s.get_char(i);
        push_char(&mut out, char_to_upper(c));
        i = i + 1;
    }
    proof {
        assert(out@ =~= upper_seq(s@));
    }
    out
}

/// Character-wise string equality.
pub fn str_eq(a: &str, b: &str) -> (r: bool)
    ensures
        r == (a@ == b@),
{
    let n = a.unicode_len();
    let m = b.unicode_len();
    if n != m {
        return false;
    }
    let mut i: usize = 0;
    while i < n
        invariant
            n == a@.len(),
            n == b@.len(),
            i <= n,
            forall|k: int| 0 <= k < i ==> a@[k] == b@[k],
        decreases n - i,
    {
        let ca = a.get_char(i);
        let cb = b.get_char(i);
        if ca != cb {
            return false;
        }
        i = i + 1;
    }
    proof {
        assert(a@ =~= b@);
    }
    true
}

pub open spec fn ends_with_seq(s: Seq<char>, t: Seq<char>) -> bool {
    t.len() <= s.len() && s.subrange(s.len() - t.len(), s.len() as int) == t
}

pub fn str_ends_with(s: &str, t: &str) -> (r: bool)
    ensures
        r == ends_with_seq(s@, t@),
{
    let n = s.unicode_len();
    let m = t.unicode_len();
    if m > n {
        return false;
    }
    let mut i: usize = 0;
    while i < m
        invariant
            n == s@.len(),
            m == t@.len(),
            m <= n,
            i <= m,
            forall|k: int| 0 <= k < i ==> s@[n - m + k] == t@[k],
        decreases m - i,
    {
        let cs = s.get_char(n - m + i);
        let ct = t.get_char(i);
        if cs != ct {
            proof {
                assert(s@.subrange(n - m, n as int)[i as int] != t@[i as int]);
            }
            return false;
        }
        i = i + 1;
    }
    proof {
        assert(s@.subrange(n - m, n as int) =~= t@);
    }
    true
}

/// Lexicographic order on character sequences, by code point.
pub open spec fn lex_le(a: Seq<char>, b: Seq<char>) -> bool
    decreases a.len(),
{
    if a.len() == 0 {
        true
    } else if b.len() == 0 {
        false
    } else if a[0] == b[0] {
        lex_le(a.drop_first(), b.drop_first())
    } else {
        (a[0] as int) < (b[0] as int)
    }
}

pub fn str_lex_le(a: &str, b: &str) -> (r: bool)
    ensures
        r == lex_le(a@, b@),
{
    let n = a.unicode_len();
    let m = b.unicode_len();
    let mut i: usize = 0;
    proof {
        assert(a@.subrange(0, n as int) =~= a@);
        assert(b@.subrange(0, m as int) =~= b@);
    }
    loop
        invariant
            n == a@.len(),
            m == b@.len(),
            i <= n,
            i <= m,
            lex_le(a@, b@) == lex_le(a@.subrange(i as int, n as int), b@.subrange(i as int, m as int)),
        decreases n - i,
    {
        if i == n {
            proof {
                assert(a@.subrange(i as int, n as int).len() == 0);
            }
            return true;
        }
        if i == m {
            proof {
                assert(b@.subrange(i as int, m as int).len() == 0);
                assert(a@.subrange(i as int, n as int).len() > 0);
            }
            return false;
        }
        let ca = a.get_char(i);
        let cb = b.get_char(i);
        if ca != cb {
            proof {
                assert(a@.subrange(i as int, n as int)[0] == ca);
                assert(b@.subrange(i as int, m as int)[0] == cb);
            }
            return ca < cb;
        }
        proof {
            let sa = a@.subrange(i as int, n as int);
            let sb = b@.subrange(i as int, m as int);
            assert(sa[0] == sb[0]);
            assert(sa.drop_first() =~= a@.subrange(i + 1, n as int));
            assert(sb.drop_first() =~= b@.subrange(i + 1, m as int));
        }
        i = i + 1;
    }
}

/// `needle` occurs contiguously somewhere in `hay`.
pub open spec fn contains_seq(hay: Seq<char>, needle: Seq<char>) -> bool {
    exists|i: int|
        0 <= i && i + needle.len() <= hay.len() && #[trigger] hay.subrange(i, i + needle.len())
            == needle
}

/// A concatenation contains its right part.
pub proof fn lemma_contains_suffix(a: Seq<char>, m: Seq<char>)
    ensures
        contains_seq(a + m, m),
{
    assert((a + m).subrange(a.len() as int, a.len() + m.len() as int) =~= m);
}

/// Appending on the right keeps every occurrence.
pub proof fn lemma_contains_extend(x: Seq<char>, y: Seq<char>, m: Seq<char>)
    requires
        contains_seq(x, m),
    ensures
        contains_seq(x + y, m),
{
    let i = choose|i: int|
        0 <= i && i + m.len() <= x.len() && #[trigger] x.subrange(i, i + m.len()) == m;
    assert((x + y).subrange(i, i + m.len() as int) =~= x.subrange(i, i + m.len() as int));
}

/// Tokens of `s`, split on the reserved delimiter `-`. The empty string has
/// one empty token; every delimiter starts a fresh token.
pub open spec fn split_dashes(s: Seq<char>) -> Seq<Seq<char>>
    decreases s.len(),
{
    if s.len() == 0 {
        seq![Seq::<char>::empty()]
    } else {
        let r = split_dashes(s.drop_last());
        if s.last() == '-' {
            r.push(Seq::<char>::empty())
        } else {
            r.update(r.len() - 1, r.last().push(s.last()))
        }
    }
}

pub proof fn lemma_split_dashes_len(s: Seq<char>)
    ensures
        split_dashes(s).len() >= 1,
    decreases s.len(),
{
    if s.len() > 0 {
        lemma_split_dashes_len(s.drop_last());
    }
}

pub fn tokenize(s: &str) -> (r: Vec<String>)
    ensures
        r.deep_view() == split_dashes(s@),
        r@.len() >= 1,
{
    let n = s.unicode_len();
    let mut toks: Vec<String> = Vec::new();
    toks.push(String::new());
    let mut i: usize = 0;
    proof {
        assert(toks.deep_view() =~= split_dashes(s@.subrange(0, 0)));
    }
    while i < n
        invariant
            n == s@.len(),
            i <= n,
            toks@.len() >= 1,
            toks.deep_view() =~= split_dashes(s@.subrange(0, i as int)),
        decreases n - i,
    {
        let c = s.get_char(i);
        if c == '-' {
            toks.push(String::new());
        } else {
            let mut last = toks.pop().unwrap();
            push_char(&mut last, c);
            toks.push(last);
        }
        i = i + 1;
        proof {
            assert(s@.subrange(0, i as int).drop_last() =~= s@.subrange(0, i - 1));
            assert(s@.subrange(0, i as int).last() == s@[i - 1]);
            lemma_split_dashes_len(s@.subrange(0, i - 1));
            assert(toks.deep_view() =~= split_dashes(s@.subrange(0, i as int)));
        }
    }
    proof {
        assert(s@.subrange(0, n as int) =~= s@);
    }
    toks
}

/// Splitting yields more than one token exactly when the string holds the
/// reserved delimiter.
pub proof fn lemma_split_len_dash(s: Seq<char>)
    ensures
        split_dashes(s).len() > 1 <==> exists|i: int| 0 <= i < s.len() && s[i] == '-',
    decreases s.len(),
{
    if s.len() == 0 {
    } else {
        lemma_split_dashes_len(s.drop_last());
        lemma_split_len_dash(s.drop_last());
        if s.last() == '-' {
            assert(s[s.len() - 1] == '-');
        } else {
            assert((exists|i: int| 0 <= i < s.len() && s[i] == '-') <==> (exists|i: int|
                0 <= i < s.drop_last().len() && s.drop_last()[i] == '-')) by {
                if exists|i: int| 0 <= i < s.len() && s[i] == '-' {
                    let i = choose|i: int| 0 <= i < s.len() && s[i] == '-';
                    assert(i < s.len() - 1);
                    assert(s.drop_last()[i] == '-');
                }
                if exists|i: int| 0 <= i < s.drop_last().len() && s.drop_last()[i] == '-' {
                    let i = choose|i: int|
                        0 <= i < s.drop_last().len() && s.drop_last()[i] == '-';
                    assert(s[i] == '-');
                }
            }
        }
    }
}

/// The characters that disqualify a label from being a structured one.
pub open spec fn forbidden_char(c: char) -> bool {
    c == ' ' || c == '_' || c == ',' || c == ';' || c == '.' || c == '/' || c == '\\' || c == ':'
        || c == '|' || c == '+'
}

pub fn is_forbidden_char(c: char) -> (r: bool)
    ensures
        r == forbidden_char(c),
{
    c == ' ' || c == '_' || c == ',' || c == ';' || c == '.' || c == '/' || c == '\\' || c == ':'
        || c == '|' || c == '+'
}

/// A structured label: non-empty, free of the forbidden separators, and
/// split by `-` into more than one token.
pub open spec fn is_structured(s: Seq<char>) -> bool {
    s.len() > 0 && (forall|i: int| 0 <= i < s.len() ==> !forbidden_char(s[i])) && split_dashes(
        s,
    ).len() > 1
}

pub fn has_forbidden_separator(s: &str) -> (r: bool)
    ensures
        r == exists|i: int| 0 <= i < s@.len() && forbidden_char(s@[i]),
{
    let n = s.unicode_len();
    let mut i: usize = 0;
    while i < n
        invariant
            n == s@.len(),
            i <= n,
            forall|k: int| 0 <= k < i ==> !forbidden_char(s@[k]),
        decreases n - i,
    {
        if is_forbidden_char(s.get_char(i)) {
            return true;
        }
        i = i + 1;
    }
    false
}

} // verus!
