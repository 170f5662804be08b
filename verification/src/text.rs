//! Character-level helpers shared by the resolvers: locating the first
//! `=` separator in a line and comparing two strings character by
//! character.

use vstd::prelude::*;
use vstd::string::StrSliceExecFns;

verus! {

/// Index of the first `=` in the line, if any: the split point between a
/// key and its value.
pub(crate) fn find_first_eq(line: &str) -> (r: Option<usize>)
    ensures
        match r {
            Some(k) => {
                &&& k < line@.len()
                &&& line@[k as int] == '='
                &&& forall|j: int| 0 <= j < k ==> line@[j] != '='
            },
            None => forall|j: int| 0 <= j < line@.len() ==> line@[j] != '=',
        },
{
    let n = line.unicode_len();
    let mut i: usize = 0;
    while i < n
        invariant
            i <= n,
            n == line@.len(),
            forall|j: int| 0 <= j < i ==> line@[j] != '=',
        decreases n - i,
    {
        if line.get_char(i) == '=' {
            return Some(i);
        }
        i = i + 1;
    }
    None
}

/// Character-by-character string equality, stated over the views.
pub(crate) fn str_eq(a: &str, b: &str) -> (r: bool)
    ensures
        r == (a@ == b@),
{
    let an = a.unicode_len();
    let bn = b.unicode_len();
    if an != bn {
        proof {
            assert(a@ != b@) by {
                assert(a@.len() != b@.len());
            }
        }
        return false;
    }
    let mut i: usize = 0;
    while i < an
        invariant
            i <= an,
            an == a@.len(),
            an == b@.len(),
            forall|j: int| 0 <= j < i ==> a@[j] == b@[j],
        decreases an - i,
    {
        if a.get_char(i) != b.get_char(i) {
            return false;
        }
        i = i + 1;
    }
    proof {
        assert(a@ =~= b@);
    }
    true
}

} // verus!
