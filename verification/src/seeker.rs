//! The dispatcher: tries the resolvers in a fixed order.
//!
//! A mode selects either one resolver, whose failure is surfaced to the
//! caller unchanged, or the full chain, which consults the key-value
//! file, then the environment table, and finally falls back on the
//! interactive line. The chain never surfaces a file or environment
//! failure: any failure there only moves it on to the next source.
//!
//! Resolution happens in two steps so that callers need not read a line
//! of input that the outcome does not depend on: `seek_sources` consults
//! the file and the environment alone and says whether input is still
//! wanted; `envseeker` composes the whole chain over an already-read
//! line.

use vstd::prelude::*;
use crate::errors::EnvError;
use crate::file::{dotenvreader, file_lookup};
use crate::interactive::{input, trimmed};
use crate::system::{env_lookup, systemreader, EnvEntry};

verus! {

/// Which resolvers a resolution consults.
pub enum SearchType {
    /// Only the key-value file.
    Envfile,
    /// Only the environment table.
    System,
    /// Only the interactive line.
    Input,
    /// The file, then the environment, then the interactive line.
    All,
}

/// What consulting the non-interactive sources came to.
pub enum SeekOutcome {
    /// The file or the environment yielded this value.
    Found(String),
    /// The mode still wants a line of interactive input.
    NeedInput,
    /// A single-resolver mode failed, for this reason.
    Failed(EnvError),
}

/// What the file resolver yields when the file's lines are at hand at
/// all: a missing file yields nothing.
pub open spec fn file_result(lines: Option<Seq<Seq<char>>>, key: Seq<char>) -> Option<Seq<char>> {
    match lines {
        Some(ls) => file_lookup(ls, key),
        None => None,
    }
}

/// What the system resolver yields as a plain value: an entry that is
/// missing or not decodable yields nothing.
pub open spec fn system_result(entries: Seq<EnvEntry>, key: Seq<char>) -> Option<Seq<char>> {
    match env_lookup(entries, key) {
        Some(Some(v)) => Some(v),
        _ => None,
    }
}

/// What the non-interactive sources yield under the given mode: the
/// file's value, the environment's value, or — in the try-everything
/// mode — the first of the two that yields one.
pub open spec fn sources_result(
    mode: SearchType,
    key: Seq<char>,
    lines: Option<Seq<Seq<char>>>,
    entries: Seq<EnvEntry>,
) -> Option<Seq<char>> {
    match mode {
        SearchType::Envfile => file_result(lines, key),
        SearchType::System => system_result(entries, key),
        SearchType::Input => None,
        SearchType::All => if file_result(lines, key) is Some {
            file_result(lines, key)
        } else {
            system_result(entries, key)
        },
    }
}

/// Whether the mode still turns to the interactive line: always in the
/// input-only mode, and in the try-everything mode exactly when neither
/// other source yielded a value.
pub open spec fn awaits_input(
    mode: SearchType,
    key: Seq<char>,
    lines: Option<Seq<Seq<char>>>,
    entries: Seq<EnvEntry>,
) -> bool {
    match mode {
        SearchType::Input => true,
        SearchType::All => sources_result(mode, key, lines, entries) is None,
        SearchType::Envfile => false,
        SearchType::System => false,
    }
}

/// The error a failed single-resolver mode surfaces: the file resolver
/// only ever reports absence; the system resolver reports absence or,
/// for a value that is not valid text, an encoding failure.
pub open spec fn sources_error(
    mode: SearchType,
    key: Seq<char>,
    entries: Seq<EnvEntry>,
) -> EnvError {
    match mode {
        SearchType::System => match env_lookup(entries, key) {
            Some(None) => EnvError::Encoding,
            _ => EnvError::NotFound,
        },
        _ => EnvError::NotFound,
    }
}

/// The outcome of the whole chain under the given mode, over the file's
/// lines, the environment entries and the raw input line.
pub open spec fn seek(
    mode: SearchType,
    key: Seq<char>,
    lines: Option<Seq<Seq<char>>>,
    entries: Seq<EnvEntry>,
    raw: Seq<char>,
) -> Option<Seq<char>> {
    if sources_result(mode, key, lines, entries) is Some {
        sources_result(mode, key, lines, entries)
    } else if awaits_input(mode, key, lines, entries) {
        Some(trimmed(raw))
    } else {
        None
    }
}

/// Consult the non-interactive sources under the given mode.
///
/// A missing file (`file_lines` absent) counts as a file-resolver
/// failure. The try-everything mode treats any file or environment
/// failure as a signal to move on, and ends by asking for input rather
/// than failing; the single-resolver modes surface their resolver's
/// failure unchanged.
pub fn seek_sources(
    searchtype: SearchType,
    envvariablename: &str,
    file_lines: &Option<Vec<String>>,
    environment: &Vec<EnvEntry>,
) -> (r: SeekOutcome)
    ensures
        match r {
            SeekOutcome::Found(v) => sources_result(
                searchtype,
                envvariablename@,
                file_lines.deep_view(),
                environment@,
            ) == Some(v@),
            SeekOutcome::NeedInput => {
                &&& sources_result(
                    searchtype,
                    envvariablename@,
                    file_lines.deep_view(),
                    environment@,
                ) is None
                &&& awaits_input(searchtype, envvariablename@, file_lines.deep_view(), environment@)
            },
            SeekOutcome::Failed(e) => {
                &&& sources_result(
                    searchtype,
                    envvariablename@,
                    file_lines.deep_view(),
                    environment@,
                ) is None
                &&& !awaits_input(
                    searchtype,
                    envvariablename@,
                    file_lines.deep_view(),
                    environment@,
                )
                &&& e == sources_error(searchtype, envvariablename@, environment@)
            },
        },
{
    match searchtype {
        SearchType::Envfile => match file_lines {
            Some(lines) => match dotenvreader(lines, envvariablename) {
                Ok(v) => SeekOutcome::Found(v),
                Err(e) => SeekOutcome::Failed(e),
            },
            None => SeekOutcome::Failed(EnvError::NotFound),
        },
        SearchType::System => match systemreader(environment, envvariablename) {
            Ok(v) => SeekOutcome::Found(v),
            Err(e) => SeekOutcome::Failed(e),
        },
        SearchType::Input => SeekOutcome::NeedInput,
        SearchType::All => {
            let file_attempt = match file_lines {
                Some(lines) => dotenvreader(lines, envvariablename),
                None => Err(EnvError::NotFound),
            };
            match file_attempt {
                Ok(v) => SeekOutcome::Found(v),
                Err(_) => match systemreader(environment, envvariablename) {
                    Ok(v) => SeekOutcome::Found(v),
                    Err(_) => SeekOutcome::NeedInput,
                },
            }
        },
    }
}

/// Resolve a value through the whole chain under the given mode.
///
/// The caller hands in every source as plain values, the raw input line
/// included; a mode that does not reach the interactive step leaves the
/// line untouched. The call is only allowed where the chain resolves:
/// the single-resolver modes demand that their resolver succeeds, while
/// the input-only and try-everything modes always resolve.
pub fn envseeker(
    searchtype: SearchType,
    envvariablename: &str,
    file_lines: &Option<Vec<String>>,
    environment: &Vec<EnvEntry>,
    raw_input: &str,
) -> (r: String)
    requires
        seek(
            searchtype,
            envvariablename@,
            file_lines.deep_view(),
            environment@,
            raw_input@,
        ) is Some,
    ensures
        Some(r@) == seek(
            searchtype,
            envvariablename@,
            file_lines.deep_view(),
            environment@,
            raw_input@,
        ),
{
    match seek_sources(searchtype, envvariablename, file_lines, environment) {
        SeekOutcome::Found(v) => v,
        SeekOutcome::NeedInput => input(raw_input),
        SeekOutcome::Failed(_) => vstd::pervasive::unreached(),
    }
}

/// The single-resolver modes delegate and add no fallback of their own:
/// the file-only mode yields exactly what the file resolver yields, the
/// system-only mode exactly what the system resolver yields, whatever
/// the other sources or the input line hold.
pub proof fn lemma_single_resolver_modes_delegate(
    key: Seq<char>,
    lines: Option<Seq<Seq<char>>>,
    entries: Seq<EnvEntry>,
    raw: Seq<char>,
)
    ensures
        seek(SearchType::Envfile, key, lines, entries, raw) == file_result(lines, key),
        seek(SearchType::System, key, lines, entries, raw) == system_result(entries, key),
{
}

/// In the try-everything mode a value found in the file wins: the
/// environment entries and the input line play no part in the outcome.
pub proof fn lemma_all_mode_prefers_file(
    key: Seq<char>,
    lines: Seq<Seq<char>>,
    entries: Seq<EnvEntry>,
    raw: Seq<char>,
)
    requires
        file_lookup(lines, key) is Some,
    ensures
        seek(SearchType::All, key, Some(lines), entries, raw) == file_lookup(lines, key),
{
}

/// In the try-everything mode, when neither the file nor the environment
/// yields a value, the outcome is the trimmed input line, whatever the
/// user supplies.
pub proof fn lemma_all_mode_falls_back_to_input(
    key: Seq<char>,
    lines: Option<Seq<Seq<char>>>,
    entries: Seq<EnvEntry>,
    raw: Seq<char>,
)
    requires
        file_result(lines, key) is None,
        system_result(entries, key) is None,
    ensures
        seek(SearchType::All, key, lines, entries, raw) == Some(trimmed(raw)),
{
}

} // verus!
