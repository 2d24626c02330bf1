//! The plugin's parameter grammar: a comma-separated list of entries of the
//! shape `name`, `name=key` or `name=key=value`.
//!
//! Inside a value, `\,` keeps a comma from ending the entry and `\\` stands
//! for a backslash; escapes are kept verbatim in the value (`a\,b` stays
//! `a\,b`). Characters that cannot start an entry (a stray `,` or `=`) are
//! skipped.

use vstd::prelude::*;

verus! {

broadcast use vstd::string::group_string_axioms;

/// `,` and `=` delimit names and keys.
pub open spec fn is_separator(c: char) -> bool {
    c == ',' || c == '='
}

/// The first position at or after `i` that does not hold a separator.
pub open spec fn skip_separators(s: Seq<char>, i: int) -> int
    decreases s.len() - i,
{
    if 0 <= i < s.len() && is_separator(s[i]) {
        skip_separators(s, i + 1)
    } else {
        i
    }
}

/// The end of the run of non-separator characters that starts at `i`.
pub open spec fn run_end(s: Seq<char>, i: int) -> int
    decreases s.len() - i,
{
    if 0 <= i < s.len() && !is_separator(s[i]) {
        run_end(s, i + 1)
    } else {
        i
    }
}

/// The end of a value that starts at `i`: it runs up to the first `=`, or the
/// first `,` that is not escaped. A backslash escapes the comma or backslash
/// that follows it.
pub open spec fn value_end(s: Seq<char>, i: int) -> int
    decreases s.len() - i,
{
    if 0 <= i < s.len() {
        if s[i] == '\\' {
            if i + 1 < s.len() && (s[i + 1] == ',' || s[i + 1] == '\\') {
                value_end(s, i + 2)
            } else {
                value_end(s, i + 1)
            }
        } else if is_separator(s[i]) {
            i
        } else {
            value_end(s, i + 1)
        }
    } else {
        i
    }
}

/// After a name ending at `k`, a key follows.
pub open spec fn key_follows(s: Seq<char>, k: int) -> bool {
    0 <= k && k + 1 < s.len() && s[k] == '=' && !is_separator(s[k + 1])
}

/// After a key ending at `m`, a non-empty value follows.
pub open spec fn value_follows(s: Seq<char>, m: int) -> bool {
    0 <= m < s.len() && s[m] == '=' && value_end(s, m + 1) > m + 1
}

/// The end of the entry that starts at `p`.
pub open spec fn entry_end(s: Seq<char>, p: int) -> int {
    let k = run_end(s, p);
    if key_follows(s, k) {
        let m = run_end(s, k + 1);
        if value_follows(s, m) {
            value_end(s, m + 1)
        } else {
            m
        }
    } else {
        k
    }
}

/// The characters with Unicode's White_Space property.
pub open spec fn is_white_space(c: char) -> bool {
    let u = c as u32;
    (0x9 <= u <= 0xd) || u == 0x20 || u == 0x85 || u == 0xa0 || u == 0x1680 || (0x2000 <= u
        <= 0x200a) || u == 0x2028 || u == 0x2029 || u == 0x202f || u == 0x205f || u == 0x3000
}

/// The text without its leading white space.
pub open spec fn trim_start(s: Seq<char>) -> Seq<char>
    decreases s.len(),
{
    if s.len() > 0 && is_white_space(s[0]) {
        trim_start(s.drop_first())
    } else {
        s
    }
}

/// The text without its trailing white space.
pub open spec fn trim_end(s: Seq<char>) -> Seq<char>
    decreases s.len(),
{
    if s.len() > 0 && is_white_space(s.last()) {
        trim_end(s.drop_last())
    } else {
        s
    }
}

/// The text without leading and trailing white space.
pub open spec fn trimmed(s: Seq<char>) -> Seq<char> {
    trim_end(trim_start(s))
}

/// One entry of a parameter string, as text.
pub struct EntryModel {
    /// The entry's full text, as written.
    pub text: Seq<char>,
    /// The entry's name, trimmed of white space.
    pub name: Seq<char>,
    /// The part after the first `=`, if any.
    pub key: Option<Seq<char>>,
    /// The part after the second `=`, if any.
    pub value: Option<Seq<char>>,
}

/// The entry that starts at `p`.
pub open spec fn entry_at(s: Seq<char>, p: int) -> EntryModel {
    let k = run_end(s, p);
    let m = run_end(s, k + 1);
    EntryModel {
        text: s.subrange(p, entry_end(s, p)),
        name: trimmed(s.subrange(p, k)),
        key: if key_follows(s, k) {
            Some(s.subrange(k + 1, m))
        } else {
            None
        },
        value: if key_follows(s, k) && value_follows(s, m) {
            Some(s.subrange(m + 1, value_end(s, m + 1)))
        } else {
            None
        },
    }
}

pub proof fn lemma_skip_separators_bounds(s: Seq<char>, i: int)
    requires
        0 <= i <= s.len(),
    ensures
        i <= skip_separators(s, i) <= s.len(),
        skip_separators(s, i) < s.len() ==> !is_separator(s[skip_separators(s, i)]),
    decreases s.len() - i,
{
    if i < s.len() && is_separator(s[i]) {
        lemma_skip_separators_bounds(s, i + 1);
    }
}

pub proof fn lemma_run_end_bounds(s: Seq<char>, i: int)
    requires
        0 <= i <= s.len(),
    ensures
        i <= run_end(s, i) <= s.len(),
        run_end(s, i) < s.len() ==> is_separator(s[run_end(s, i)]),
    decreases s.len() - i,
{
    if i < s.len() && !is_separator(s[i]) {
        lemma_run_end_bounds(s, i + 1);
    }
}

pub proof fn lemma_value_end_bounds(s: Seq<char>, i: int)
    requires
        0 <= i <= s.len(),
    ensures
        i <= value_end(s, i) <= s.len(),
    decreases s.len() - i,
{
    if i < s.len() {
        if s[i] == '\\' {
            if i + 1 < s.len() && (s[i + 1] == ',' || s[i + 1] == '\\') {
                lemma_value_end_bounds(s, i + 2);
            } else {
                lemma_value_end_bounds(s, i + 1);
            }
        } else if !is_separator(s[i]) {
            lemma_value_end_bounds(s, i + 1);
        }
    }
}

/// An entry that starts on a character that is no separator is not empty,
/// and its parts lie in order within the string.
pub proof fn lemma_entry_bounds(s: Seq<char>, p: int)
    requires
        0 <= p < s.len(),
        !is_separator(s[p]),
    ensures
        p < run_end(s, p) <= entry_end(s, p) <= s.len(),
        key_follows(s, run_end(s, p)) ==> run_end(s, p) + 1 < run_end(s, run_end(s, p) + 1)
            <= entry_end(s, p),
        key_follows(s, run_end(s, p)) && value_follows(s, run_end(s, run_end(s, p) + 1))
            ==> entry_end(s, p) == value_end(s, run_end(s, run_end(s, p) + 1) + 1),
{
    lemma_run_end_bounds(s, p + 1);
    let k = run_end(s, p);
    if key_follows(s, k) {
        lemma_run_end_bounds(s, k + 2);
        let m = run_end(s, k + 1);
        if value_follows(s, m) {
            lemma_value_end_bounds(s, m + 1);
        }
    }
}

/// The entries of `s` from position `i` on.
pub open spec fn entries_from(s: Seq<char>, i: int) -> Seq<EntryModel>
    decreases s.len() - i,
    via entries_from_decreases
{
    let p = skip_separators(s, i);
    if 0 <= i && 0 <= p < s.len() {
        seq![entry_at(s, p)] + entries_from(s, entry_end(s, p))
    } else {
        Seq::empty()
    }
}

#[via_fn]
proof fn entries_from_decreases(s: Seq<char>, i: int) {
    let p = skip_separators(s, i);
    if 0 <= i && 0 <= p < s.len() {
        if i > s.len() {
            assert(skip_separators(s, i) == i);
        } else {
            lemma_skip_separators_bounds(s, i);
            lemma_entry_bounds(s, p);
        }
    }
}

/// The entries of a whole parameter string, in order.
pub open spec fn entries_of(s: Seq<char>) -> Seq<EntryModel> {
    entries_from(s, 0)
}

/// Relies on `str::trim`: the text without leading and trailing white space,
/// white space being the characters with Unicode's White_Space property.
#[verifier::external_body]
fn trim(s: &str) -> (r: &str)
    ensures
        r@ == trimmed(s@),
{
    s.trim()
}

/// One entry of a parameter string.
pub struct Entry {
    /// The entry's full text, as written.
    pub text: String,
    /// The entry's name, trimmed of white space.
    pub name: String,
    /// The part after the first `=`, if any.
    pub key: Option<String>,
    /// The part after the second `=`, if any.
    pub value: Option<String>,
}

pub open spec fn option_view(o: Option<String>) -> Option<Seq<char>> {
    match o {
        Some(t) => Some(t@),
        None => None,
    }
}

impl View for Entry {
    type V = EntryModel;

    open spec fn view(&self) -> EntryModel {
        EntryModel {
            text: self.text@,
            name: self.name@,
            key: option_view(self.key),
            value: option_view(self.value),
        }
    }
}

fn chars_of(s: &str) -> (r: Vec<char>)
    ensures
        r@ == s@,
{
    let n = s.unicode_len();
    let mut r: Vec<char> = Vec::new();
    let mut i: usize = 0;
    while i < n
        invariant
            n == s@.len(),
            i <= n,
            r@ == s@.subrange(0, i as int),
        decreases n - i,
    {
        r.push(s.get_char(i));
        i = i + 1;
    }
    assert(r@ =~= s@);
    r
}

fn skip_separators_exec(cs: &Vec<char>, i: usize) -> (r: usize)
    requires
        i <= cs@.len(),
    ensures
        r == skip_separators(cs@, i as int),
{
    let mut j = i;
    while j < cs.len() && (cs[j] == ',' || cs[j] == '=')
        invariant
            i <= j <= cs@.len(),
            skip_separators(cs@, i as int) == skip_separators(cs@, j as int),
        decreases cs@.len() - j,
    {
        j = j + 1;
    }
    j
}

fn run_end_exec(cs: &Vec<char>, i: usize) -> (r: usize)
    requires
        i <= cs@.len(),
    ensures
        r == run_end(cs@, i as int),
{
    let mut j = i;
    while j < cs.len() && cs[j] != ',' && cs[j] != '='
        invariant
            i <= j <= cs@.len(),
            run_end(cs@, i as int) == run_end(cs@, j as int),
        decreases cs@.len() - j,
    {
        j = j + 1;
    }
    j
}

fn value_end_exec(cs: &Vec<char>, i: usize) -> (r: usize)
    requires
        i <= cs@.len(),
    ensures
        r == value_end(cs@, i as int),
{
    let mut j = i;
    while j < cs.len()
        invariant
            i <= j <= cs@.len(),
            value_end(cs@, i as int) == value_end(cs@, j as int),
        decreases cs@.len() - j,
    {
        if cs[j] == '\\' {
            if j + 1 < cs.len() && (cs[j + 1] == ',' || cs[j + 1] == '\\') {
                j = j + 2;
            } else {
                j = j + 1;
            }
        } else if cs[j] == ',' || cs[j] == '=' {
            return j;
        } else {
            j = j + 1;
        }
    }
    j
}

fn piece(s: &str, from: usize, to: usize) -> (r: String)
    requires
        from <= to <= s@.len(),
    ensures
        r@ == s@.subrange(from as int, to as int),
{
    s.substring_char(from, to).to_string()
}

/// Reads the entry that starts at `p`, and returns it with its end.
fn entry_exec(s: &str, cs: &Vec<char>, p: usize) -> (r: (Entry, usize))
    requires
        cs@ == s@,
        p < cs@.len(),
        !is_separator(cs@[p as int]),
    ensures
        r.0@ == entry_at(s@, p as int),
        r.1 == entry_end(s@, p as int),
{
    proof {
        lemma_entry_bounds(s@, p as int);
    }
    let k = run_end_exec(cs, p);
    let name_text = piece(s, p, k);
    let name = trim(name_text.as_str()).to_string();
    if k < cs.len() && k + 1 < cs.len() && cs[k] == '=' && cs[k + 1] != ',' && cs[k + 1] != '=' {
        let m = run_end_exec(cs, k + 1);
        let key = piece(s, k + 1, m);
        if m < cs.len() && cs[m] == '=' {
            let e = value_end_exec(cs, m + 1);
            if e > m + 1 {
                let value = piece(s, m + 1, e);
                let text = piece(s, p, e);
                return (Entry { text, name, key: Some(key), value: Some(value) }, e);
            }
        }
        let text = piece(s, p, m);
        (Entry { text, name, key: Some(key), value: None }, m)
    } else {
        let text = piece(s, p, k);
        (Entry { text, name, key: None, value: None }, k)
    }
}

/// Splits a parameter string into its entries, in order.
pub fn tokenize(s: &str) -> (r: Vec<Entry>)
    ensures
        r@.len() == entries_of(s@).len(),
        forall|j: int| 0 <= j < r@.len() ==> #[trigger] r@[j]@ == entries_of(s@)[j],
{
    let cs = chars_of(s);
    let mut out: Vec<Entry> = Vec::new();
    let mut i: usize = 0;
    while i < cs.len()
        invariant
            cs@ == s@,
            i <= cs@.len(),
            entries_of(s@) == out@.map_values(|e: Entry| e@) + entries_from(s@, i as int),
        ensures
            entries_from(s@, i as int) =~= Seq::<EntryModel>::empty(),
        decreases cs@.len() - i,
    {
        let p = skip_separators_exec(&cs, i);
        proof {
            lemma_skip_separators_bounds(s@, i as int);
        }
        if p == cs.len() {
            assert(entries_from(s@, i as int) =~= Seq::<EntryModel>::empty());
            break;
        }
        let (entry, end) = entry_exec(s, &cs, p);
        proof {
            lemma_entry_bounds(s@, p as int);
            let old_view = out@.map_values(|e: Entry| e@);
            assert(entries_from(s@, i as int) == seq![entry@] + entries_from(s@, end as int));
            assert(old_view.push(entry@) + entries_from(s@, end as int) =~= old_view + (seq![entry@]
                + entries_from(s@, end as int)));
        }
        let ghost before = out@;
        let ghost entry_view = entry@;
        out.push(entry);
        proof {
            assert(out@.map_values(|e: Entry| e@) =~= before.map_values(|e: Entry| e@).push(
                entry_view,
            ));
        }
        i = end;
    }
    assert(entries_of(s@) =~= out@.map_values(|e: Entry| e@));
    out
}

} // verus!
