//! The interactive resolver: turns one raw line of terminal input into a
//! value by trimming leading and trailing whitespace, the line terminator
//! included.
//!
//! Writing the prompt and reading the line are the caller's business; the
//! resolver itself is a pure function of the line that was read.

use vstd::prelude::*;
use vstd::string::StrSliceExecFns;

verus! {

/// The whitespace characters that trimming removes: the blank, tab, line
/// feed, carriage return, vertical tab and form feed.
pub open spec fn is_space_char(c: char) -> bool {
    c == ' ' || c == '\t' || c == '\n' || c == '\r' || c == '\u{b}' || c == '\u{c}'
}

/// `s` without its leading whitespace.
pub open spec fn trim_start_spec(s: Seq<char>) -> Seq<char>
    decreases s.len(),
{
    if s.len() > 0 && is_space_char(s[0]) {
        trim_start_spec(s.drop_first())
    } else {
        s
    }
}

/// `s` without its trailing whitespace.
pub open spec fn trim_end_spec(s: Seq<char>) -> Seq<char>
    decreases s.len(),
{
    if s.len() > 0 && is_space_char(s[s.len() - 1]) {
        trim_end_spec(s.drop_last())
    } else {
        s
    }
}

/// `s` without leading and trailing whitespace.
pub open spec fn trimmed(s: Seq<char>) -> Seq<char> {
    trim_end_spec(trim_start_spec(s))
}

/// Whether the character is whitespace in the sense of `is_space_char`.
pub fn is_space(c: char) -> (b: bool)
    ensures
        b == is_space_char(c),
{
    c == ' ' || c == '\t' || c == '\n' || c == '\r' || c == '\u{b}' || c == '\u{c}'
}

/// Dropping the leading whitespace keeps exactly the tail that starts at
/// the first non-whitespace position.
proof fn lemma_trim_start_is_subrange(s: Seq<char>, a: int)
    requires
        0 <= a <= s.len(),
        forall|j: int| 0 <= j < a ==> is_space_char(s[j]),
        a < s.len() ==> !is_space_char(s[a]),
    ensures
        trim_start_spec(s) == s.subrange(a, s.len() as int),
    decreases a,
{
    if a == 0 {
        assert(s.subrange(0, s.len() as int) =~= s);
    } else {
        assert(is_space_char(s[0]));
        let rest = s.drop_first();
        assert(forall|j: int| 0 <= j < a - 1 ==> rest[j] == s[j + 1]);
        lemma_trim_start_is_subrange(rest, a - 1);
        assert(rest.subrange(a - 1, rest.len() as int) =~= s.subrange(a, s.len() as int));
    }
}

/// Dropping the trailing whitespace keeps exactly the head that ends at
/// the last non-whitespace position.
proof fn lemma_trim_end_is_subrange(s: Seq<char>, b: int)
    requires
        0 <= b <= s.len(),
        forall|j: int| b <= j < s.len() ==> is_space_char(s[j]),
        b > 0 ==> !is_space_char(s[b - 1]),
    ensures
        trim_end_spec(s) == s.subrange(0, b),
    decreases s.len() - b,
{
    if b == s.len() {
        assert(s.subrange(0, s.len() as int) =~= s);
    } else {
        assert(is_space_char(s[s.len() - 1]));
        let head = s.drop_last();
        assert(forall|j: int| 0 <= j < head.len() ==> head[j] == s[j]);
        lemma_trim_end_is_subrange(head, b);
        assert(head.subrange(0, b) =~= s.subrange(0, b));
    }
}

/// Produce a value from one raw line of interactive input: the line with
/// leading and trailing whitespace removed.
pub fn input(raw: &str) -> (r: String)
    ensures
        r@ == trimmed(raw@),
{
    let n = raw.unicode_len();
    let mut start: usize = 0;
    while start < n && is_space(raw.get_char(start))
        invariant
            start <= n,
            n == raw@.len(),
            forall|j: int| 0 <= j < start ==> is_space_char(raw@[j]),
        decreases n - start,
    {
        start = start + 1;
    }
    let mut end: usize = n;
    while end > start && is_space(raw.get_char(end - 1))
        invariant
            start <= end <= n,
            n == raw@.len(),
            forall|j: int| 0 <= j < start ==> is_space_char(raw@[j]),
            start < n ==> !is_space_char(raw@[start as int]),
            forall|j: int| end <= j < n ==> is_space_char(raw@[j]),
        decreases end,
    {
        end = end - 1;
    }
    proof {
        lemma_trim_start_is_subrange(raw@, start as int);
        let tail = raw@.subrange(start as int, n as int);
        assert(forall|j: int| end - start <= j < tail.len() ==> is_space_char(tail[j]));
        lemma_trim_end_is_subrange(tail, end - start);
        assert(tail.subrange(0, end - start) =~= raw@.subrange(start as int, end as int));
    }
    raw.substring_char(start, end).to_owned()
}

} // verus!
