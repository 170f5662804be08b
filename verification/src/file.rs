//! The file resolver: looks a key up in the lines of a key-value file.
//!
//! Each line is expected to hold one `KEY=VALUE` pair, split on the first
//! `=`, with a non-empty value. The lookup walks the lines in order and
//! gives up on the first line that does not match the requested key: only
//! a file whose every line matches yields a value (the value of the last
//! line). This mirrors the historical behaviour of the resolver exactly;
//! a full-file scan would silently change what multi-line files resolve
//! to, so it is kept as is.

use vstd::prelude::*;
use vstd::string::StrSliceExecFns;
use crate::errors::EnvError;
use crate::text::find_first_eq;

verus! {

/// The line holds `key`, then `=`, then a non-empty value, and `key`
/// itself contains no `=` (so the first `=` of the line is the split
/// point).
pub open spec fn line_matches(line: Seq<char>, key: Seq<char>) -> bool {
    &&& line.len() > key.len() + 1
    &&& line.subrange(0, key.len() as int) == key
    &&& line[key.len() as int] == '='
    &&& !key.contains('=')
}

/// Everything after the `=` that follows `key`.
pub open spec fn line_value(line: Seq<char>, key: Seq<char>) -> Seq<char> {
    line.subrange(key.len() as int + 1, line.len() as int)
}

/// Remove one pair of wrapping double quotes, if the value carries one.
pub open spec fn strip_quotes(value: Seq<char>) -> Seq<char> {
    if value.len() >= 2 && value[0] == '"' && value[value.len() - 1] == '"' {
        value.subrange(1, value.len() - 1)
    } else {
        value
    }
}

/// What the file resolver returns for `key` on a file made of `lines`:
/// the last line's value, quotes stripped, provided the file is non-empty
/// and every line matches `key`; nothing otherwise.
pub open spec fn file_lookup(lines: Seq<Seq<char>>, key: Seq<char>) -> Option<Seq<char>> {
    if lines.len() > 0 && (forall|i: int| 0 <= i < lines.len() ==> line_matches(lines[i], key)) {
        Some(strip_quotes(line_value(lines.last(), key)))
    } else {
        None
    }
}

/// Decide whether one line matches the requested key.
pub(crate) fn line_matches_exec(line: &str, key: &str) -> (b: bool)
    ensures
        b == line_matches(line@, key@),
{
    let klen = key.unicode_len();
    let llen = line.unicode_len();
    match find_first_eq(line) {
        None => {
            proof {
                if line_matches(line@, key@) {
                    assert(line@[klen as int] == '=');
                }
            }
            false
        }
        Some(k) => {
            if k != klen {
                proof {
                    if line_matches(line@, key@) {
                        if k < klen {
                            assert(line@.subrange(0, klen as int)[k as int] == line@[k as int]);
                            assert(key@[k as int] == '=');
                        } else {
                            assert(line@[klen as int] == '=');
                        }
                    }
                }
                false
            } else if llen <= klen + 1 {
                false
            } else {
                let mut j: usize = 0;
                while j < klen
                    invariant
                        j <= klen,
                        klen == key@.len(),
                        llen == line@.len(),
                        llen > klen + 1,
                        forall|t: int| 0 <= t < klen ==> line@[t] != '=',
                        line@[klen as int] == '=',
                        forall|t: int| 0 <= t < j ==> line@[t] == key@[t],
                    decreases klen - j,
                {
                    if line.get_char(j) != key.get_char(j) {
                        proof {
                            if line_matches(line@, key@) {
                                assert(line@.subrange(0, klen as int)[j as int] == line@[j as int]);
                            }
                        }
                        return false;
                    }
                    j = j + 1;
                }
                proof {
                    assert(line@.subrange(0, klen as int) =~= key@);
                    assert(!key@.contains('=')) by {
                        if key@.contains('=') {
                            let t = choose|t: int| 0 <= t < key@.len() && key@[t] == '=';
                            assert(line@[t] == '=');
                        }
                    }
                }
                true
            }
        }
    }
}

/// Extract the value part of a line known to match the key.
pub(crate) fn line_value_exec(line: &str, key: &str) -> (r: String)
    requires
        line_matches(line@, key@),
    ensures
        r@ == line_value(line@, key@),
{
    let klen = key.unicode_len();
    let llen = line.unicode_len();
    line.substring_char(klen + 1, llen).to_owned()
}

/// Remove one pair of wrapping double quotes, if the value carries one.
pub(crate) fn strip_quotes_exec(value: &String) -> (r: String)
    ensures
        r@ == strip_quotes(value@),
{
    let s = value.as_str();
    let n = s.unicode_len();
    if n >= 2 && s.get_char(0) == '"' && s.get_char(n - 1) == '"' {
        s.substring_char(1, n - 1).to_owned()
    } else {
        value.clone()
    }
}

/// Look `envvariablename` up in the lines of the key-value file.
///
/// Walks the lines in order, keeping the value of each matching line and
/// failing outright on the first line that does not match; an empty file
/// fails as well. On success the kept value, stripped of one wrapping
/// pair of double quotes, is returned.
pub fn dotenvreader(lines: &Vec<String>, envvariablename: &str) -> (r: Result<String, EnvError>)
    ensures
        match r {
            Ok(v) => file_lookup(lines.deep_view(), envvariablename@) == Some(v@),
            Err(e) => {
                &&& file_lookup(lines.deep_view(), envvariablename@) is None
                &&& e == EnvError::NotFound
            },
        },
{
    let ghost all = lines.deep_view();
    let mut token = String::new();
    let mut i: usize = 0;
    while i < lines.len()
        invariant
            i <= lines.len(),
            all == lines.deep_view(),
            all.len() == lines.len(),
            forall|j: int| 0 <= j < i ==> line_matches(all[j], envvariablename@),
            i > 0 ==> token@ == line_value(all[i - 1], envvariablename@),
            i == 0 ==> token@ == Seq::<char>::empty(),
        decreases lines.len() - i,
    {
        let line = &lines[i];
        proof {
            assert(all[i as int] == line@);
        }
        if line_matches_exec(line.as_str(), envvariablename) {
            token = line_value_exec(line.as_str(), envvariablename);
        } else {
            return Err(EnvError::NotFound);
        }
        i = i + 1;
    }
    if token.as_str().unicode_len() == 0 {
        proof {
            if all.len() > 0 {
                assert(line_matches(all[i - 1], envvariablename@));
                assert(line_value(all[i - 1], envvariablename@).len() > 0);
            }
        }
        return Err(EnvError::NotFound);
    }
    let r = strip_quotes_exec(&token);
    proof {
        assert(all.last() == all[i - 1]);
    }
    Ok(r)
}

/// A key present as the sole line of a well-formed file resolves to that
/// line's value, with one wrapping pair of double quotes stripped.
pub proof fn lemma_sole_line_found(key: Seq<char>, value: Seq<char>)
    requires
        value.len() > 0,
        !key.contains('='),
    ensures
        file_lookup(seq![key + seq!['='] + value], key) == Some(strip_quotes(value)),
{
    let line = key + seq!['='] + value;
    assert(line.subrange(0, key.len() as int) =~= key);
    assert(line[key.len() as int] == '=');
    assert(line_matches(line, key));
    assert(line_value(line, key) =~= value);
    let lines = seq![line];
    assert(lines.last() == line);
    assert(forall|i: int| 0 <= i < lines.len() ==> line_matches(lines[i], key));
}

/// A key absent from the file (no line matches it), or one whose matching
/// line is not reached because an earlier line fails to match, is not
/// found; neither is anything in an empty file.
pub proof fn lemma_lookup_fails(lines: Seq<Seq<char>>, key: Seq<char>)
    requires
        lines.len() == 0 || exists|i: int| 0 <= i < lines.len() && !line_matches(lines[i], key),
    ensures
        file_lookup(lines, key) is None,
{
    if lines.len() > 0 {
        let i = choose|i: int| 0 <= i < lines.len() && !line_matches(lines[i], key);
        assert(!line_matches(lines[i], key));
    }
}

/// Round trip: a value written with wrapping double quotes resolves to
/// the inner content, exactly.
pub proof fn lemma_quoted_round_trip(key: Seq<char>, value: Seq<char>)
    requires
        !key.contains('='),
    ensures
        file_lookup(seq![key + seq!['='] + seq!['"'] + value + seq!['"']], key) == Some(value),
{
    let quoted = seq!['"'] + value + seq!['"'];
    assert(quoted.len() == value.len() + 2);
    assert(quoted[0] == '"');
    assert(quoted[quoted.len() - 1] == '"');
    assert(strip_quotes(quoted) =~= value);
    lemma_sole_line_found(key, quoted);
    assert(key + seq!['='] + quoted =~= key + seq!['='] + seq!['"'] + value + seq!['"']);
}

/// A found value is non-empty, except when the matching line's value is
/// exactly one empty pair of quotes, which strips to the empty string.
pub proof fn lemma_found_value_nonempty(lines: Seq<Seq<char>>, key: Seq<char>)
    requires
        line_value(lines.last(), key) != seq!['"', '"'],
    ensures
        file_lookup(lines, key) matches Some(v) ==> v.len() > 0,
{
    if file_lookup(lines, key) is Some {
        assert(line_matches(lines[lines.len() - 1], key));
        let v = line_value(lines.last(), key);
        assert(v.len() > 0);
        if v.len() >= 2 && v[0] == '"' && v[v.len() - 1] == '"' {
            if v.len() == 2 {
                assert(v =~= seq!['"', '"']);
            }
        }
    }
}

} // verus!
