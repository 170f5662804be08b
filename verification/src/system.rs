//! The system resolver: looks a key up in a table of environment entries.
//!
//! The process environment is handed in as plain values: one entry per
//! variable, carrying its name and, when the stored bytes are valid text,
//! its value. An entry whose value is absent stands for a variable that
//! is set but not decodable as text.

use vstd::prelude::*;
use crate::errors::EnvError;
use crate::text::str_eq;

verus! {

/// One environment variable as the resolver sees it: its name, and its
/// value when that value is valid text (`None` marks a variable that is
/// present but not decodable).
pub struct EnvEntry {
    pub name: String,
    pub value: Option<String>,
}

/// What the environment holds for `key`: nothing when no entry carries
/// that name; otherwise the first such entry's value (`Some(None)` when
/// the variable is present but its value is not valid text).
pub open spec fn env_lookup(entries: Seq<EnvEntry>, key: Seq<char>) -> Option<Option<Seq<char>>>
    decreases entries.len(),
{
    if entries.len() == 0 {
        None
    } else if entries[0].name@ == key {
        match entries[0].value {
            Some(v) => Some(Some(v@)),
            None => Some(None),
        }
    } else {
        env_lookup(entries.drop_first(), key)
    }
}

/// A key that no entry carries is not found.
pub proof fn lemma_env_absent(entries: Seq<EnvEntry>, key: Seq<char>)
    requires
        forall|i: int| 0 <= i < entries.len() ==> entries[i].name@ != key,
    ensures
        env_lookup(entries, key) is None,
    decreases entries.len(),
{
    if entries.len() > 0 {
        assert(entries[0].name@ != key);
        lemma_env_absent(entries.drop_first(), key);
    }
}

/// A key that some entry carries resolves to the first such entry's
/// stored value, exactly.
pub proof fn lemma_env_first_match(entries: Seq<EnvEntry>, key: Seq<char>, i: int)
    requires
        0 <= i < entries.len(),
        entries[i].name@ == key,
        forall|j: int| 0 <= j < i ==> entries[j].name@ != key,
    ensures
        env_lookup(entries, key) == match entries[i].value {
            Some(v) => Some(Some(v@)),
            None => Some(None),
        },
    decreases entries.len(),
{
    if i > 0 {
        assert(entries[0].name@ != key);
        let rest = entries.drop_first();
        assert(rest[i - 1] == entries[i]);
        assert(forall|j: int| 0 <= j < i - 1 ==> rest[j] == entries[j + 1]);
        lemma_env_first_match(rest, key, i - 1);
    }
}

/// Look `envvariablename` up among the environment entries: the first
/// entry of that name decides the outcome. A missing entry is not found;
/// an entry whose value is not valid text is an encoding failure.
pub fn systemreader(environment: &Vec<EnvEntry>, envvariablename: &str) -> (r: Result<
    String,
    EnvError,
>)
    ensures
        match r {
            Ok(v) => env_lookup(environment@, envvariablename@) == Some(Some(v@)),
            Err(e) => match env_lookup(environment@, envvariablename@) {
                None => e == EnvError::NotFound,
                Some(None) => e == EnvError::Encoding,
                Some(Some(_)) => false,
            },
        },
{
    let mut i: usize = 0;
    while i < environment.len()
        invariant
            i <= environment.len(),
            forall|j: int| 0 <= j < i ==> environment@[j].name@ != envvariablename@,
        decreases environment.len() - i,
    {
        let entry = &environment[i];
        if str_eq(entry.name.as_str(), envvariablename) {
            proof {
                lemma_env_first_match(environment@, envvariablename@, i as int);
            }
            match &entry.value {
                Some(v) => {
                    return Ok(v.clone());
                }
                None => {
                    return Err(EnvError::Encoding);
                }
            }
        }
        i = i + 1;
    }
    proof {
        lemma_env_absent(environment@, envvariablename@);
    }
    Err(EnvError::NotFound)
}

} // verus!
