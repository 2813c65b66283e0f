use vstd::prelude::*;
use crate::text::{
    contains, find_first, find_str, kept_from, kept_index, lemma_find_occurs, occurs_at, run_from, slice,
    stop_index, trim, trimmed, CharClass,
};

verus! {

/// A double or a single quote.
pub open spec fn is_quote(c: char) -> bool {
    c == '"' || c == '\''
}

/// The raw string trimmed, then without one layer of surrounding quotes: the first
/// and last characters are dropped where both are the same quote.
pub open spec fn unquoted(raw: Seq<char>) -> Seq<char> {
    let t = trimmed(raw);
    if t.len() >= 2 && is_quote(t[0]) && t[t.len() - 1] == t[0] {
        t.subrange(1, t.len() - 1)
    } else {
        t
    }
}

/// The text of a shell command that names its program: between the first double
/// quote and the next one (or the end) where the command holds a double quote,
/// else the first whitespace-separated token.
pub open spec fn command_program(cmd: Seq<char>) -> Seq<char> {
    match find_first(cmd, seq!['"']) {
        Some(q) => run_from(cmd, CharClass::Only('"'), q + 1),
        None => run_from(cmd, CharClass::Whitespace, kept_from(cmd, CharClass::Whitespace, 0)),
    }
}

/// Relies on `shellexpand::env`: expands `$NAME` and `${NAME}` references from the
/// process environment, and hands a string without `$` back unchanged.
#[verifier::external_body]
fn expand_env(s: &str) -> (r: Option<String>)
    ensures
        r is None ==> contains(s@, seq!['$']),
        r matches Some(e) ==> (e@ == s@ || contains(s@, seq!['$'])),
{
    match shellexpand::env(s) {
        Ok(e) => Some(e.into_owned()),
        Err(_) => None,
    }
}

/// Relies on `std::path::Path::exists`: whether something is on disk at this path.
#[verifier::external_body]
pub(crate) fn path_exists(p: &str) -> (r: bool) {
    std::path::Path::new(p).exists()
}

/// Relies on `std::path::Path::is_file`: whether a regular file is on disk at this path.
#[verifier::external_body]
pub(crate) fn path_is_file(p: &str) -> (r: bool) {
    std::path::Path::new(p).is_file()
}

/// Relies on `std::path::Path::file_name`: the last component of the path, a
/// non-empty part of it, or none where the path ends in `..` or is a root.
#[verifier::external_body]
pub(crate) fn file_name(p: &str) -> (r: Option<String>)
    ensures
        r matches Some(n) ==> n@.len() > 0 && contains(p@, n@),
{
    match std::path::Path::new(p).file_name() {
        Some(n) => Some(n.to_string_lossy().into_owned()),
        None => None,
    }
}

/// What the normalizer returns once the environment has been read and the disk
/// consulted: nothing where expansion failed, the expanded path where it exists,
/// else the unquoted string.
pub fn settle_path(unquoted_path: String, expanded: Option<String>, exists: bool) -> (r: Option<String>)
    ensures
        r == (match expanded {
            None => None,
            Some(e) => if exists { Some(e) } else { Some(unquoted_path) },
        }),
{
    match expanded {
        None => None,
        Some(e) => if exists { Some(e) } else { Some(unquoted_path) },
    }
}

/// Trims the raw path, strips its quotes and expands environment references.
/// Where the path has no `$`, the result is the unquoted string itself.
pub fn clean_path(raw_path: &str) -> (r: Option<String>)
    ensures
        trimmed(raw_path@).len() == 0 ==> r is None,
        trimmed(raw_path@).len() > 0 && !contains(unquoted(raw_path@), seq!['$']) ==> (r matches Some(
            p,
        ) && p@ == unquoted(raw_path@)),
{
    let t = trim(raw_path);
    let n = t.as_str().unicode_len();
    if n == 0 {
        return None;
    }
    let unq = if n >= 2 {
        let first = t.as_str().get_char(0);
        if (first == '"' || first == '\'') && t.as_str().get_char(n - 1) == first {
            slice(t.as_str(), 1, n - 1)
        } else {
            t
        }
    } else {
        t
    };
    let expanded = expand_env(unq.as_str());
    let exists = match &expanded {
        Some(e) => path_exists(e.as_str()),
        None => false,
    };
    settle_path(unq, expanded, exists)
}

/// The program path of a shell "open" command, normalized.
pub fn extract_path_from_cmd(cmd: &str) -> (r: Option<String>)
    ensures
        trimmed(command_program(cmd@)).len() == 0 ==> r is None,
        trimmed(command_program(cmd@)).len() > 0 && !contains(
            unquoted(command_program(cmd@)),
            seq!['$'],
        ) ==> (r matches Some(p) && p@ == unquoted(command_program(cmd@))),
{
    let n = cmd.unicode_len();
    let quote = "\"";
    proof {
        reveal_strlit("\"");
        assert(quote@ =~= seq!['"']);
    }
    let program = match find_str(cmd, quote) {
        Some(q) => {
            assert(occurs_at(cmd@, seq!['"'], q as int)) by {
                lemma_find_occurs(cmd@, seq!['"'], 0);
            }
            let e = stop_index(cmd, &CharClass::Only('"'), q + 1);
            slice(cmd, q + 1, e)
        },
        None => {
            let start = kept_index(cmd, &CharClass::Whitespace);
            let e = stop_index(cmd, &CharClass::Whitespace, start);
            slice(cmd, start, e)
        },
    };
    assert(program@ == command_program(cmd@));
    clean_path(program.as_str())
}

} // verus!
