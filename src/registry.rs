use vstd::prelude::*;
use crate::paths::{clean_path, file_name, path_exists, path_is_file};
use crate::text::{contains, ends_with, lower_of, str_contains, str_ends_with, to_lower, trim, trimmed};

verus! {

/// A browser as the system's registry lists it: a display name and, where the
/// registry gives one, the path of its program.
pub struct RawBrowser {
    pub name: String,
    pub path: Option<String>,
}

/// A candidate that passed validation, with the key under which duplicates merge
/// and whether it has a valid executable.
pub struct CheckedBrowser {
    pub key: String,
    pub browser: RawBrowser,
    pub valid: bool,
}

/// The words that mark a name as a browser's, in lower case.
pub open spec fn browser_keywords() -> Seq<Seq<char>> {
    seq![
        seq!['c', 'h', 'r', 'o', 'm', 'e'],
        seq!['f', 'i', 'r', 'e', 'f', 'o', 'x'],
        seq!['e', 'd', 'g', 'e'],
        seq!['o', 'p', 'e', 'r', 'a'],
        seq!['b', 'r', 'a', 'v', 'e'],
        seq!['v', 'i', 'v', 'a', 'l', 'd', 'i'],
        seq!['t', 'o', 'r'],
        seq!['y', 'a', 'n', 'd', 'e', 'x'],
        seq!['c', 'h', 'r', 'o', 'm', 'i', 'u', 'm'],
    ]
}

/// A lower-cased name that holds one of the browser keywords.
pub open spec fn names_browser(lower: Seq<char>) -> bool {
    exists|i: int| 0 <= i < browser_keywords().len() && contains(lower, #[trigger] browser_keywords()[i])
}

pub open spec fn exe_suffix() -> Seq<char> {
    seq!['.', 'e', 'x', 'e']
}

/// The length of a path, or none.
pub open spec fn path_len(p: Option<String>) -> Option<nat> {
    match p {
        Some(s) => Some(s@.len()),
        None => None,
    }
}

/// A newcomer replaces the entry of its key where it has a valid executable and the
/// entry has none, or where both are equally valid and its path is strictly longer.
pub open spec fn replaces(new: CheckedBrowser, old: CheckedBrowser) -> bool {
    (new.valid && !old.valid) || (new.valid == old.valid && match (
        path_len(new.browser.path),
        path_len(old.browser.path),
    ) {
        (Some(a), Some(b)) => a > b,
        _ => false,
    })
}

/// The first position at or after `k` of an entry with this key.
pub open spec fn index_of_key(reg: Seq<CheckedBrowser>, key: Seq<char>, k: int) -> Option<int>
    decreases reg.len() - k,
{
    if k < 0 || k >= reg.len() {
        None
    } else if reg[k].key@ == key {
        Some(k)
    } else {
        index_of_key(reg, key, k + 1)
    }
}

/// The registry after one more candidate arrived.
pub open spec fn merge_step(reg: Seq<CheckedBrowser>, c: CheckedBrowser) -> Seq<CheckedBrowser> {
    match index_of_key(reg, c.key@, 0) {
        None => reg.push(c),
        Some(i) => if replaces(c, reg[i]) {
            reg.update(i, c)
        } else {
            reg
        },
    }
}

/// The registry built from the candidates in their order of arrival.
pub open spec fn merge_all(cs: Seq<CheckedBrowser>) -> Seq<CheckedBrowser>
    decreases cs.len(),
{
    if cs.len() == 0 {
        Seq::empty()
    } else {
        merge_step(merge_all(cs.drop_last()), cs.last())
    }
}

pub open spec fn keys_unique(reg: Seq<CheckedBrowser>) -> bool {
    forall|i: int, j: int| 0 <= i < j < reg.len() ==> #[trigger] reg[i].key@ != #[trigger] reg[j].key@
}

proof fn lemma_index_of_key(reg: Seq<CheckedBrowser>, key: Seq<char>, k: int)
    requires
        0 <= k,
    ensures
        index_of_key(reg, key, k) matches Some(i) ==> k <= i < reg.len() && reg[i].key@ == key,
        index_of_key(reg, key, k) is None ==> forall|j: int| k <= j < reg.len() ==> reg[j].key@ != key,
    decreases reg.len() - k,
{
    if k < reg.len() && reg[k].key@ != key {
        lemma_index_of_key(reg, key, k + 1);
    }
}

proof fn lemma_step_keeps_unique(reg: Seq<CheckedBrowser>, c: CheckedBrowser)
    requires
        keys_unique(reg),
    ensures
        keys_unique(merge_step(reg, c)),
{
    lemma_index_of_key(reg, c.key@, 0);
    let r = merge_step(reg, c);
    match index_of_key(reg, c.key@, 0) {
        None => {
            assert forall|i: int, j: int| 0 <= i < j < r.len() implies #[trigger] r[i].key@
                != #[trigger] r[j].key@ by {
                if j == reg.len() {
                    assert(r[i] == reg[i]);
                }
            }
        },
        Some(x) => {
            assert forall|i: int, j: int| 0 <= i < j < r.len() implies #[trigger] r[i].key@
                != #[trigger] r[j].key@ by {
                if replaces(c, reg[x]) {
                    if i == x {
                        assert(reg[x].key@ == c.key@);
                    } else if j == x {
                        assert(reg[x].key@ == c.key@);
                    }
                }
            }
        },
    }
}

/// The registry never holds two entries with the same key.
pub proof fn lemma_merge_keys_unique(cs: Seq<CheckedBrowser>)
    ensures
        keys_unique(merge_all(cs)),
    decreases cs.len(),
{
    if cs.len() > 0 {
        lemma_merge_keys_unique(cs.drop_last());
        lemma_step_keeps_unique(merge_all(cs.drop_last()), cs.last());
    }
}

proof fn lemma_merge_unique_is_identity(s: Seq<CheckedBrowser>)
    requires
        keys_unique(s),
    ensures
        merge_all(s) == s,
    decreases s.len(),
{
    if s.len() > 0 {
        let p = s.drop_last();
        assert(keys_unique(p));
        lemma_merge_unique_is_identity(p);
        lemma_index_of_key(p, s.last().key@, 0);
        if index_of_key(p, s.last().key@, 0) is Some {
            let i = index_of_key(p, s.last().key@, 0)->0;
            assert(s[i].key@ == s[s.len() - 1].key@);
        }
        assert(p.push(s.last()) =~= s);
    }
}

/// Running validation and merging again over a registry that it produced gives
/// that same registry back.
pub proof fn lemma_merge_idempotent(cs: Seq<CheckedBrowser>)
    ensures
        merge_all(merge_all(cs)) == merge_all(cs),
{
    lemma_merge_keys_unique(cs);
    lemma_merge_unique_is_identity(merge_all(cs));
}

proof fn lemma_merge_pair(a: CheckedBrowser, b: CheckedBrowser)
    requires
        a.key@ == b.key@,
    ensures
        merge_all(seq![a, b]) == (if replaces(b, a) {
            seq![b]
        } else {
            seq![a]
        }),
{
    assert(seq![a, b].drop_last() =~= seq![a]);
    assert(seq![a].drop_last() =~= Seq::<CheckedBrowser>::empty());
    assert(merge_all(Seq::<CheckedBrowser>::empty()) == Seq::<CheckedBrowser>::empty());
    assert(index_of_key(Seq::<CheckedBrowser>::empty(), a.key@, 0) is None);
    assert(Seq::<CheckedBrowser>::empty().push(a) =~= seq![a]);
    assert(merge_all(seq![a]) =~= seq![a]);
    assert(index_of_key(seq![a], b.key@, 0) == Some(0int));
    assert(seq![a].update(0, b) =~= seq![b]);
}

/// Of two candidates with the same key of which exactly one has a valid
/// executable, the registry keeps the valid one, whichever arrived first.
pub proof fn lemma_valid_candidate_wins(a: CheckedBrowser, b: CheckedBrowser)
    requires
        a.key@ == b.key@,
        a.valid != b.valid,
    ensures
        merge_all(seq![a, b]) == (if a.valid {
            seq![a]
        } else {
            seq![b]
        }),
{
    lemma_merge_pair(a, b);
}

/// The registry holds a valid entry under this key.
pub open spec fn has_valid_entry(reg: Seq<CheckedBrowser>, key: Seq<char>) -> bool {
    exists|i: int| 0 <= i < reg.len() && (#[trigger] reg[i]).key@ == key && reg[i].valid
}

proof fn lemma_step_keeps_valid(reg: Seq<CheckedBrowser>, c: CheckedBrowser, key: Seq<char>)
    ensures
        has_valid_entry(reg, key) ==> has_valid_entry(merge_step(reg, c), key),
        c.valid ==> has_valid_entry(merge_step(reg, c), c.key@),
{
    lemma_index_of_key(reg, c.key@, 0);
    let r = merge_step(reg, c);
    if has_valid_entry(reg, key) {
        let i = choose|i: int| 0 <= i < reg.len() && (#[trigger] reg[i]).key@ == key && reg[i].valid;
        match index_of_key(reg, c.key@, 0) {
            None => {
                assert(r[i] == reg[i]);
            },
            Some(x) => {
                if replaces(c, reg[x]) && i == x {
                    assert(r[x] == c);
                } else {
                    assert(r[i] == reg[i]);
                }
            },
        }
    }
    if c.valid {
        match index_of_key(reg, c.key@, 0) {
            None => {
                assert(r[reg.len() as int] == c);
            },
            Some(x) => {
                if replaces(c, reg[x]) {
                    assert(r[x] == c);
                } else {
                    assert(r[x] == reg[x]);
                }
            },
        }
    }
}

/// Where any candidate with a key has a valid executable, the registry's entry
/// under that key has one too, whatever the order of arrival.
pub proof fn lemma_valid_candidate_kept(cs: Seq<CheckedBrowser>, j: int)
    requires
        0 <= j < cs.len(),
        cs[j].valid,
    ensures
        has_valid_entry(merge_all(cs), cs[j].key@),
    decreases cs.len(),
{
    let p = cs.drop_last();
    lemma_step_keeps_valid(merge_all(p), cs.last(), cs[j].key@);
    if j < cs.len() - 1 {
        assert(p[j] == cs[j]);
        lemma_valid_candidate_kept(p, j);
    }
}

/// Of two equally valid candidates with the same key, the registry keeps the
/// second only where both have a path and its path is strictly longer; else the
/// first.
pub proof fn lemma_longer_path_wins(a: CheckedBrowser, b: CheckedBrowser)
    requires
        a.key@ == b.key@,
        a.valid == b.valid,
    ensures
        merge_all(seq![a, b]) == (if (b.browser.path matches Some(pb) && a.browser.path matches Some(
            pa,
        ) && pb@.len() > pa@.len()) {
            seq![b]
        } else {
            seq![a]
        }),
{
    lemma_merge_pair(a, b);
}

fn keyword(i: usize) -> (r: &'static str)
    requires
        i < 9,
    ensures
        r@ == browser_keywords()[i as int],
{
    proof {
        reveal_strlit("chrome");
        reveal_strlit("firefox");
        reveal_strlit("edge");
        reveal_strlit("opera");
        reveal_strlit("brave");
        reveal_strlit("vivaldi");
        reveal_strlit("tor");
        reveal_strlit("yandex");
        reveal_strlit("chromium");
    }
    let r = match i {
        0 => "chrome",
        1 => "firefox",
        2 => "edge",
        3 => "opera",
        4 => "brave",
        5 => "vivaldi",
        6 => "tor",
        7 => "yandex",
        _ => "chromium",
    };
    assert(r@ =~= browser_keywords()[i as int]);
    r
}

/// Whether an already lower-cased name holds a browser keyword.
pub fn names_browser_lower(lower: &str) -> (r: bool)
    ensures
        r == names_browser(lower@),
{
    let mut i: usize = 0;
    while i < 9
        invariant
            i <= 9,
            browser_keywords().len() == 9,
            forall|j: int| 0 <= j < i ==> !contains(lower@, #[trigger] browser_keywords()[j]),
        decreases 9 - i,
    {
        if str_contains(lower, keyword(i)) {
            return true;
        }
        i += 1;
    }
    false
}

/// Whether the name, in lower case, holds a browser keyword.
pub fn is_browser_name(name: &str) -> (r: bool)
    ensures
        r == names_browser(lower_of(name@)),
{
    let lower = to_lower(name);
    names_browser_lower(lower.as_str())
}

/// The verdict on a path once the disk has been consulted: a regular file that
/// exists, whose lower-cased path ends in `.exe`.
pub fn executable_verdict(exists: bool, is_file: bool, lowered: &str) -> (r: bool)
    ensures
        r == (exists && is_file && ends_with(lowered@, exe_suffix())),
{
    let suffix = ".exe";
    proof {
        reveal_strlit(".exe");
        assert(suffix@ =~= exe_suffix());
    }
    exists && is_file && str_ends_with(lowered, suffix)
}

/// Whether the path names an existing regular file whose name ends in `.exe`,
/// in any case.
pub fn is_executable(path: &str) -> (r: bool)
    ensures
        r ==> ends_with(lower_of(path@), exe_suffix()),
{
    let lowered = to_lower(path);
    executable_verdict(path_exists(path), path_is_file(path), lowered.as_str())
}

/// The index of the entry with this key, if any.
fn find_key(reg: &Vec<CheckedBrowser>, key: &String) -> (r: Option<usize>)
    ensures
        match r {
            Some(i) => index_of_key(reg@, key@, 0) == Some(i as int),
            None => index_of_key(reg@, key@, 0) is None,
        },
{
    let mut j: usize = 0;
    while j < reg.len()
        invariant
            j <= reg@.len(),
            index_of_key(reg@, key@, 0) == index_of_key(reg@, key@, j as int),
        decreases reg.len() - j,
    {
        if reg[j].key == *key {
            return Some(j);
        }
        j += 1;
    }
    None
}

fn replaces_exec(new: &CheckedBrowser, old: &CheckedBrowser) -> (r: bool)
    ensures
        r == replaces(*new, *old),
{
    if new.valid && !old.valid {
        return true;
    }
    if new.valid != old.valid {
        return false;
    }
    match (&new.browser.path, &old.browser.path) {
        (Some(a), Some(b)) => a.as_str().unicode_len() > b.as_str().unicode_len(),
        _ => false,
    }
}

/// Adds one candidate to the registry under the merge precedence.
pub fn merge_candidate(reg: &mut Vec<CheckedBrowser>, c: CheckedBrowser)
    ensures
        final(reg)@ == merge_step(old(reg)@, c),
{
    let found = find_key(reg, &c.key);
    proof {
        lemma_index_of_key(reg@, c.key@, 0);
    }
    match found {
        None => reg.push(c),
        Some(i) => {
            if replaces_exec(&c, &reg[i]) {
                reg.remove(i);
                reg.insert(i, c);
                assert(reg@ =~= merge_step(old(reg)@, c));
            }
        },
    }
}

/// Merges the candidates, in their order of arrival, into a registry with one
/// entry per key.
pub fn dedup_browsers(cs: Vec<CheckedBrowser>) -> (r: Vec<CheckedBrowser>)
    ensures
        r@ == merge_all(cs@),
        keys_unique(r@),
{
    let ghost all = cs@;
    let total = cs.len();
    let mut rest = cs;
    let mut reg: Vec<CheckedBrowser> = Vec::new();
    let mut i: usize = 0;
    while rest.len() > 0
        invariant
            all.len() == total,
            i <= all.len(),
            rest@ == all.subrange(i as int, all.len() as int),
            reg@ == merge_all(all.subrange(0, i as int)),
        decreases rest.len(),
    {
        let c = rest.remove(0);
        proof {
            assert(all.subrange(0, i + 1).drop_last() =~= all.subrange(0, i as int));
            assert(all.subrange(i + 1, all.len() as int) =~= rest@);
        }
        merge_candidate(&mut reg, c);
        i += 1;
    }
    proof {
        assert(all.subrange(0, i as int) =~= all);
        lemma_merge_keys_unique(all);
    }
    reg
}

/// The name check decides a candidate that has no path, or only a blank one.
pub open spec fn name_check_applies(raw: RawBrowser) -> bool {
    match raw.path {
        None => true,
        Some(p) => trimmed(p@).len() == 0,
    }
}

/// The key of a kept candidate: the lower-cased file name of its path, or the
/// lower-cased trimmed name.
pub open spec fn key_fits(raw: RawBrowser, c: CheckedBrowser) -> bool {
    ||| c.key@ == lower_of(trimmed(raw.name@))
    ||| (c.browser.path matches Some(p) && exists|f: Seq<char>|
        f.len() > 0 && contains(p@, f) && c.key@ == lower_of(f))
}

/// What a kept candidate satisfies: its name is kept, it is valid exactly where it
/// has a path, that path ends in `.exe`, and a candidate without a path has a
/// browser's name, which is its key.
pub open spec fn checked_from(raw: RawBrowser, c: CheckedBrowser) -> bool {
    &&& c.browser.name@ == raw.name@
    &&& c.valid == c.browser.path is Some
    &&& (c.browser.path matches Some(p) ==> ends_with(lower_of(p@), exe_suffix()))
    &&& (c.browser.path is None ==> names_browser(lower_of(trimmed(raw.name@))) && c.key@ == lower_of(
        trimmed(raw.name@),
    ))
    &&& key_fits(raw, c)
}

/// A candidate that may be dropped: one that the name check decides fails it.
pub open spec fn may_drop(raw: RawBrowser) -> bool {
    name_check_applies(raw) ==> !names_browser(lower_of(trimmed(raw.name@)))
}

/// `cs` is what validation keeps of `raw`, in the order of arrival: each candidate
/// either yields one checked entry or is one that may be dropped.
pub open spec fn accepted(raw: Seq<RawBrowser>, cs: Seq<CheckedBrowser>) -> bool
    decreases raw.len(),
{
    if raw.len() == 0 {
        cs.len() == 0
    } else {
        ||| (cs.len() > 0 && checked_from(raw.last(), cs.last()) && accepted(raw.drop_last(), cs.drop_last()))
        ||| (may_drop(raw.last()) && accepted(raw.drop_last(), cs))
    }
}

/// The browsers of the registry's entries.
pub open spec fn browsers_of(reg: Seq<CheckedBrowser>) -> Seq<RawBrowser> {
    reg.map_values(|c: CheckedBrowser| c.browser)
}

/// Validates one candidate: its path is normalized again; it is kept where that
/// path is an existing `.exe` file or, without a path, where its name holds a
/// browser keyword. Its key is the lower-cased file name of the path, else of the
/// trimmed name.
pub fn check_candidate(raw: RawBrowser) -> (r: Option<CheckedBrowser>)
    ensures
        r matches Some(c) ==> checked_from(raw, c),
        r is None ==> may_drop(raw),
        name_check_applies(raw) ==> (r is Some <==> names_browser(lower_of(trimmed(raw.name@)))),
{
    let ghost raw0 = raw;
    let name = trim(raw.name.as_str());
    let path = match &raw.path {
        Some(p) => clean_path(p.as_str()),
        None => None,
    };
    match path {
        Some(p) => {
            if !is_executable(p.as_str()) {
                return None;
            }
            let key = match file_name(p.as_str()) {
                Some(f) => to_lower(f.as_str()),
                None => to_lower(name.as_str()),
            };
            Some(CheckedBrowser { key, browser: RawBrowser { name: raw.name, path: Some(p) }, valid: true })
        },
        None => {
            if !is_browser_name(name.as_str()) {
                return None;
            }
            let key = to_lower(name.as_str());
            Some(CheckedBrowser { key, browser: RawBrowser { name: raw.name, path: None }, valid: false })
        },
    }
}

/// The browsers of the registry built from already checked candidates.
pub fn merge_checked(cs: Vec<CheckedBrowser>) -> (r: Vec<RawBrowser>)
    ensures
        r@ == browsers_of(merge_all(cs@)),
{
    let merged = dedup_browsers(cs);
    let ghost m = merged@;
    let total = merged.len();
    let mut rest = merged;
    let mut out: Vec<RawBrowser> = Vec::new();
    let mut i: usize = 0;
    while rest.len() > 0
        invariant
            m.len() == total,
            i <= m.len(),
            rest@ == m.subrange(i as int, m.len() as int),
            out@ == browsers_of(m.subrange(0, i as int)),
        decreases rest.len(),
    {
        let c = rest.remove(0);
        out.push(c.browser);
        proof {
            assert(browsers_of(m.subrange(0, i + 1)) =~= browsers_of(m.subrange(0, i as int)).push(
                m[i as int].browser,
            ));
            assert(m.subrange(i + 1, m.len() as int) =~= rest@);
        }
        i += 1;
    }
    proof {
        assert(m.subrange(0, i as int) =~= m);
    }
    out
}

/// The first position at or after `k` of a browser with this name.
pub open spec fn index_of_name(bs: Seq<RawBrowser>, name: Seq<char>, k: int) -> Option<int>
    decreases bs.len() - k,
{
    if k < 0 || k >= bs.len() {
        None
    } else if bs[k].name@ == name {
        Some(k)
    } else {
        index_of_name(bs, name, k + 1)
    }
}

/// The index of the first browser with exactly this name.
pub fn find_by_name(browsers: &Vec<RawBrowser>, name: &String) -> (r: Option<usize>)
    ensures
        match r {
            Some(i) => index_of_name(browsers@, name@, 0) == Some(i as int),
            None => index_of_name(browsers@, name@, 0) is None,
        },
{
    let mut j: usize = 0;
    while j < browsers.len()
        invariant
            j <= browsers@.len(),
            index_of_name(browsers@, name@, 0) == index_of_name(browsers@, name@, j as int),
        decreases browsers.len() - j,
    {
        if browsers[j].name == *name {
            return Some(j);
        }
        j += 1;
    }
    None
}

/// The display name of a registry entry: its application name, else its default
/// value, else the name of its key.
pub fn display_name(app_name: Option<String>, default_value: Option<String>, subkey: String) -> (r: String)
    ensures
        r@ == (match (app_name, default_value) {
            (Some(a), _) => a@,
            (None, Some(d)) => d@,
            (None, None) => subkey@,
        }),
{
    match app_name {
        Some(a) => a,
        None => match default_value {
            Some(d) => d,
            None => subkey,
        },
    }
}

/// Validates the registry's candidates and merges duplicates: one browser per key.
/// The result is the merge, in order of arrival, of what validation keeps.
pub fn installed_browsers(raw_browsers: Vec<RawBrowser>) -> (r: Vec<RawBrowser>)
    ensures
        exists|cs: Seq<CheckedBrowser>|
            accepted(raw_browsers@, cs) && keys_unique(merge_all(cs)) && r@ == browsers_of(
                merge_all(cs),
            ),
{
    let ghost all = raw_browsers@;
    let total = raw_browsers.len();
    let mut rest = raw_browsers;
    let mut checked: Vec<CheckedBrowser> = Vec::new();
    let mut i: usize = 0;
    while rest.len() > 0
        invariant
            all.len() == total,
            i <= all.len(),
            rest@ == all.subrange(i as int, all.len() as int),
            accepted(all.subrange(0, i as int), checked@),
        decreases rest.len(),
    {
        let raw = rest.remove(0);
        let ghost before = checked@;
        proof {
            assert(all.subrange(0, i + 1).drop_last() =~= all.subrange(0, i as int));
            assert(all.subrange(0, i + 1).last() == raw);
            assert(all.subrange(i + 1, all.len() as int) =~= rest@);
        }
        match check_candidate(raw) {
            Some(c) => {
                checked.push(c);
                proof {
                    assert(checked@.drop_last() =~= before);
                }
            },
            None => {},
        }
        i += 1;
    }
    proof {
        assert(all.subrange(0, i as int) =~= all);
        lemma_merge_keys_unique(checked@);
    }
    let ghost cs = checked@;
    let r = merge_checked(checked);
    assert(accepted(all, cs) && keys_unique(merge_all(cs)) && r@ == browsers_of(merge_all(cs)));
    r
}

} // verus!
