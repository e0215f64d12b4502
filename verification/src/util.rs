//! The label classifier and the keyword matcher: whole-word keyword search
//! (through the regex crate) and the digit-run scan that finds an embedded
//! build number in free text.

use vstd::prelude::*;
use vstd::string::StrSliceExecFns;

use crate::text;

verus! {

/// Whether the structured-label classifier accepts this string: non-empty,
/// none of the forbidden separators, and more than one `-`-separated token.
pub fn is_subdivided_by_dashes_only(s: &str) -> (r: bool)
    ensures
        r == text::is_structured(s@),
{
    if s.is_empty() {
        return false;
    }
    if text::has_forbidden_separator(s) {
        return false;
    }
    let toks = text::tokenize(s);
    toks.len() > 1
}

/// Whether `word`, taken literally and bounded by word boundaries on both
/// sides, occurs in `hay`. The boundary rule is the regex crate's Unicode
/// `\b`, which has no short statement; the name stands for the result of
/// that search, a function of the two strings alone.
pub uninterp spec fn word_occurs(hay: Seq<char>, word: Seq<char>) -> bool;

/// Relies on regex::escape and regex::Regex: the word is escaped to a
/// literal, wrapped in `\b` word boundaries, and searched for in the
/// haystack. A pattern the crate refuses to compile counts as no match.
#[verifier::external_body]
fn word_match(haystack: &str, word: &str) -> (r: bool)
    ensures
        r == word_occurs(haystack@, word@),
{
    let pattern = format!("\\b{}\\b", regex::escape(word));
    match regex::Regex::new(&pattern) {
        Ok(re) => re.is_match(haystack),
        Err(_) => false,
    }
}

/// One of the words occurs whole-word in `hay`.
pub open spec fn any_word_occurs(hay: Seq<char>, words: Seq<Seq<char>>) -> bool {
    exists|i: int| 0 <= i < words.len() && word_occurs(hay, #[trigger] words[i])
}

/// Whole-word, case-aware search for any of the candidate keywords.
pub fn contains_any_word(haystack: &str, words: &[&str]) -> (r: bool)
    ensures
        r == any_word_occurs(haystack@, words.deep_view()),
{
    let mut i: usize = 0;
    while i < words.len()
        invariant
            i <= words@.len(),
            forall|k: int| 0 <= k < i ==> !word_occurs(haystack@, words.deep_view()[k]),
        decreases words@.len() - i,
    {
        if word_match(haystack, words[i]) {
            proof {
                assert(word_occurs(haystack@, words.deep_view()[i as int]));
            }
            return true;
        }
        i = i + 1;
    }
    false
}

/// Index of the first word at or after `from` that occurs whole-word in
/// `hay`; `words.len()` when none does.
pub open spec fn first_word_index(hay: Seq<char>, words: Seq<Seq<char>>, from: int) -> int
    decreases words.len() - from when 0 <= from <= words.len()
{
    if from >= words.len() {
        words.len() as int
    } else if word_occurs(hay, words[from]) {
        from
    } else {
        first_word_index(hay, words, from + 1)
    }
}

pub proof fn lemma_first_word_index(hay: Seq<char>, words: Seq<Seq<char>>, from: int)
    requires
        0 <= from <= words.len(),
    ensures
        from <= first_word_index(hay, words, from) <= words.len(),
        first_word_index(hay, words, from) < words.len() ==> word_occurs(
            hay,
            words[first_word_index(hay, words, from)],
        ),
        forall|j: int| from <= j < first_word_index(hay, words, from) ==> !word_occurs(
            hay,
            #[trigger] words[j],
        ),
    decreases words.len() - from,
{
    if from < words.len() && !word_occurs(hay, words[from]) {
        lemma_first_word_index(hay, words, from + 1);
    }
}

/// The first label of the vocabulary that occurs whole-word in the string.
pub fn identify_release(value: &str, labels: &Vec<String>) -> (r: Option<String>)
    ensures
        ({
            let p = first_word_index(value@, labels.deep_view(), 0);
            match r {
                Some(l) => p < labels@.len() && l@ == labels.deep_view()[p],
                None => p == labels@.len(),
            }
        }),
{
    let mut i: usize = 0;
    while i < labels.len()
        invariant
            i <= labels@.len(),
            forall|k: int| 0 <= k < i ==> !word_occurs(value@, #[trigger] labels.deep_view()[k]),
        decreases labels@.len() - i,
    {
        if word_match(value, labels[i].as_str()) {
            proof {
                assert(word_occurs(value@, labels.deep_view()[i as int]));
                lemma_first_word_index(value@, labels.deep_view(), 0);
            }
            return Some(labels[i].clone());
        }
        i = i + 1;
    }
    proof {
        lemma_first_word_index(value@, labels.deep_view(), 0);
    }
    None
}

pub open spec fn is_digit(c: char) -> bool {
    '0' <= c && c <= '9'
}

/// A maximal run of exactly `n` digits starts at position `i`.
pub open spec fn digit_run_at(s: Seq<char>, i: int, n: int) -> bool {
    &&& 0 <= i
    &&& i + n <= s.len()
    &&& forall|k: int| i <= k < i + n ==> is_digit(#[trigger] s[k])
    &&& (i == 0 || !is_digit(s[i - 1]))
    &&& (i + n == s.len() || !is_digit(s[i + n]))
}

/// Position of the first maximal `n`-digit run at or after `from`;
/// `s.len()` when there is none.
pub open spec fn first_digit_run(s: Seq<char>, from: int, n: int) -> int
    decreases s.len() - from when 0 <= from <= s.len()
{
    if from >= s.len() {
        s.len() as int
    } else if digit_run_at(s, from, n) {
        from
    } else {
        first_digit_run(s, from + 1, n)
    }
}

pub proof fn lemma_first_digit_run(s: Seq<char>, from: int, n: int)
    requires
        0 <= from <= s.len(),
    ensures
        from <= first_digit_run(s, from, n) <= s.len(),
        first_digit_run(s, from, n) < s.len() ==> digit_run_at(s, first_digit_run(s, from, n), n),
        forall|j: int| from <= j < first_digit_run(s, from, n) ==> !digit_run_at(s, j, n),
    decreases s.len() - from,
{
    if from < s.len() && !digit_run_at(s, from, n) {
        lemma_first_digit_run(s, from + 1, n);
    }
}

pub fn is_digit_char(c: char) -> (r: bool)
    ensures
        r == is_digit(c),
{
    '0' <= c && c <= '9'
}

/// The end of the digit run that starts at `i`: the first position at or
/// after `i + 1` that is past the end or holds a non-digit.
fn digit_run_end(value: &str, i: usize, n: usize) -> (j: usize)
    requires
        n == value@.len(),
        i < n,
    ensures
        i < j <= n,
        forall|k: int| i < k < j ==> is_digit(value@[k]),
        j < n ==> !is_digit(value@[j as int]),
{
    let mut j: usize = i + 1;
    while j < n
        invariant
            n == value@.len(),
            i < j <= n,
            forall|k: int| i < k < j ==> is_digit(value@[k]),
        decreases n - j,
    {
        if !is_digit_char(value.get_char(j)) {
            return j;
        }
        j = j + 1;
    }
    j
}

/// Search the string for a maximal run of exactly `digits` decimal digits
/// and return the first one, as its own string.
pub fn find_number_with_digits(value: &str, digits: usize) -> (r: Option<String>)
    requires
        digits >= 1,
    ensures
        ({
            let p = first_digit_run(value@, 0, digits as int);
            match r {
                Some(t) => p < value@.len() && t@ == value@.subrange(p, p + digits as int),
                None => p == value@.len(),
            }
        }),
{
    let n = value.unicode_len();
    let mut i: usize = 0;
    // i is past every digit run examined so far; a digit at i starts a run
    while i < n
        invariant
            digits >= 1,
            n == value@.len(),
            i <= n,
            forall|j: int| 0 <= j < i ==> !digit_run_at(value@, j, digits as int),
            i > 0 && i < n && is_digit(value@[i as int]) ==> !is_digit(value@[i - 1]),
        decreases n - i,
    {
        if is_digit_char(value.get_char(i)) {
            let j = digit_run_end(value, i, n);
            if j - i == digits {
                proof {
                    assert(digit_run_at(value@, i as int, digits as int));
                    lemma_first_digit_run(value@, 0, digits as int);
                    assert(first_digit_run(value@, 0, digits as int) == i);
                }
                let sub = value.substring_char(i, j);
                return Some(sub.to_owned());
            }
            proof {
                // no qualifying run starts inside a maximal run of another length
                assert forall|q: int| i <= q < j implies !digit_run_at(
                    value@,
                    q,
                    digits as int,
                ) by {
                    if digit_run_at(value@, q, digits as int) {
                        if q > i {
                            assert(is_digit(value@[q - 1]));
                            assert(false);
                        }
                        if (digits as int) < j - i {
                            assert(is_digit(value@[i + digits]));
                            assert(false);
                        } else {
                            assert(j < n);
                            assert(is_digit(value@[j as int]));
                            assert(false);
                        }
                    }
                }
            }
            i = j;
        } else {
            proof {
                if digit_run_at(value@, i as int, digits as int) {
                    assert(is_digit(value@[i as int]));
                }
            }
            i = i + 1;
        }
    }
    proof {
        lemma_first_digit_run(value@, 0, digits as int);
    }
    None
}

} // verus!
