use vstd::prelude::*;
use vstd::std_specs::iter::IteratorSpec;

verus! {

broadcast use vstd::std_specs::vec::group_vec_axioms;

/// The overlay file read by default, relative to the working directory.
pub const OVERLAY_FILE: &'static str = ".env";

/// A character of the Unicode `White_Space` property, the set that `str::trim` removes.
pub open spec fn is_white_space(c: char) -> bool {
    ||| c == '\t' || c == '\n' || c == '\u{0B}' || c == '\u{0C}' || c == '\r' || c == ' '
    ||| c == '\u{85}' || c == '\u{A0}' || c == '\u{1680}'
    ||| ('\u{2000}' <= c && c <= '\u{200A}')
    ||| c == '\u{2028}' || c == '\u{2029}' || c == '\u{202F}' || c == '\u{205F}' || c == '\u{3000}'
}

/// The first index at or after `i` that holds no white space, or `s.len()`.
pub open spec fn skip_white(s: Seq<char>, i: int) -> int
    decreases s.len() - i,
{
    if 0 <= i < s.len() && is_white_space(s[i]) {
        skip_white(s, i + 1)
    } else {
        i
    }
}

/// The end of `s.subrange(lo, j)` once trailing white space is dropped.
pub open spec fn back_white(s: Seq<char>, lo: int, j: int) -> int
    decreases j - lo,
{
    if lo < j && is_white_space(s[j - 1]) {
        back_white(s, lo, j - 1)
    } else {
        j
    }
}

/// `s` without leading and trailing white space.
pub open spec fn trimmed(s: Seq<char>) -> Seq<char> {
    let lo = skip_white(s, 0);
    s.subrange(lo, back_white(s, lo, s.len() as int))
}

/// `s` without one pair of surrounding double quotes, if it has them.
pub open spec fn unquoted(s: Seq<char>) -> Seq<char> {
    if s.len() >= 2 && s[0] == '"' && s[s.len() - 1] == '"' {
        s.subrange(1, s.len() - 1)
    } else {
        s
    }
}

/// The first index at or after `i` that holds `c`, or `s.len()`.
pub open spec fn find_from(s: Seq<char>, c: char, i: int) -> int
    decreases s.len() - i,
{
    if 0 <= i < s.len() {
        if s[i] == c {
            i
        } else {
            find_from(s, c, i + 1)
        }
    } else {
        s.len() as int
    }
}

/// The pieces of `s` between newlines, in order; there is always one more
/// piece than there are newlines.
pub open spec fn split_lines(s: Seq<char>) -> Seq<Seq<char>>
    decreases s.len(),
{
    if s.len() == 0 {
        seq![Seq::empty()]
    } else {
        let p = split_lines(s.drop_last());
        if s.last() == '\n' {
            p.push(Seq::empty())
        } else {
            p.update(p.len() - 1, p.last().push(s.last()))
        }
    }
}

/// The key and value that one line of an overlay file defines: a line that does
/// not start with `#` and holds a `=`; the key is what stands before the first
/// `=`, trimmed, the value what follows it, trimmed and unquoted. A line whose
/// key or value comes out empty defines nothing.
pub open spec fn entry_of(line: Seq<char>) -> Option<(Seq<char>, Seq<char>)> {
    let eq = find_from(line, '=', 0);
    if (line.len() > 0 && line[0] == '#') || eq >= line.len() {
        None
    } else {
        let k = trimmed(line.subrange(0, eq));
        let v = unquoted(trimmed(line.subrange(eq + 1, line.len() as int)));
        if k.len() == 0 || v.len() == 0 {
            None
        } else {
            Some((k, v))
        }
    }
}

/// The entries that `lines` define, in order.
pub open spec fn entries_of(lines: Seq<Seq<char>>) -> Seq<(Seq<char>, Seq<char>)>
    decreases lines.len(),
{
    if lines.len() == 0 {
        Seq::empty()
    } else {
        let rest = entries_of(lines.drop_last());
        match entry_of(lines.last()) {
            Some(e) => rest.push(e),
            None => rest,
        }
    }
}

/// The entries that the text of an overlay file defines, in file order.
pub open spec fn overlay_entries(text: Seq<char>) -> Seq<(Seq<char>, Seq<char>)> {
    entries_of(split_lines(text))
}

/// The entries as sequences of characters.
pub open spec fn entries_view(v: Seq<(String, String)>) -> Seq<(Seq<char>, Seq<char>)> {
    v.map_values(|p: (String, String)| (p.0@, p.1@))
}

/// The value of the last entry for `key`: a later line overrides an earlier one.
pub open spec fn last_value(entries: Seq<(Seq<char>, Seq<char>)>, key: Seq<char>) -> Option<Seq<char>>
    decreases entries.len(),
{
    if entries.len() == 0 {
        None
    } else if entries.last().0 == key {
        Some(entries.last().1)
    } else {
        last_value(entries.drop_last(), key)
    }
}

/// Environment lookups that a local `.env` overlay file takes precedence over.
pub struct Env;

impl Env {
    /// The entries that an overlay file's text defines, in file order. Lines
    /// starting with `#` are comments; lines without a `=`, or with an empty key
    /// or value, are skipped.
    pub fn parse(text: &str) -> (r: Vec<(String, String)>)
        ensures
            entries_view(r@) == overlay_entries(text@),
    {
        let chars = chars_of(text);
        let mut out: Vec<(String, String)> = Vec::new();
        let mut cur: Vec<char> = Vec::new();
        let mut i: usize = 0;
        proof {
            lemma_split_lines_nonempty(chars@.take(0));
            assert(chars@.take(0) =~= Seq::<char>::empty());
        }
        while i < chars.len()
            invariant
                i <= chars.len(),
                chars@ == text@,
                split_lines(chars@.take(i as int)).len() >= 1,
                entries_view(out@) == entries_of(split_lines(chars@.take(i as int)).drop_last()),
                cur@ == split_lines(chars@.take(i as int)).last(),
            decreases chars.len() - i,
        {
            let c = chars[i];
            let ghost before = chars@.take(i as int);
            let ghost p = split_lines(before);
            proof {
                assert(chars@.take(i + 1).drop_last() =~= before);
                assert(chars@.take(i + 1).last() == c);
                lemma_split_lines_nonempty(chars@.take(i + 1));
            }
            if c == '\n' {
                let found = line_entry(&cur);
                proof {
                    assert(p.push(Seq::empty()).drop_last() =~= p);
                    assert(p =~= p.drop_last().push(p.last()));
                }
                match found {
                    Some(e) => {
                        let ghost prev = out@;
                        out.push(e);
                        proof {
                            assert(entries_view(out@) =~= entries_view(prev).push((e.0@, e.1@)));
                        }
                    },
                    None => {},
                }
                cur = Vec::new();
            } else {
                cur.push(c);
                proof {
                    assert(p.update(p.len() - 1, p.last().push(c)).drop_last() =~= p.drop_last());
                }
            }
            i += 1;
        }
        proof {
            assert(chars@.take(i as int) =~= text@);
        }
        let ghost p = split_lines(text@);
        let found = line_entry(&cur);
        proof {
            assert(p =~= p.drop_last().push(p.last()));
        }
        match found {
            Some(e) => {
                let ghost prev = out@;
                out.push(e);
                proof {
                    assert(entries_view(out@) =~= entries_view(prev).push((e.0@, e.1@)));
                }
            },
            None => {},
        }
        out
    }

    /// The value that the overlay gives `key`: that of its last entry for `key`.
    pub fn lookup(entries: &Vec<(String, String)>, key: &str) -> (r: Option<String>)
        ensures
            match last_value(entries_view(entries@), key@) {
                Some(v) => r matches Some(s) && s@ == v,
                None => r is None,
            },
    {
        let k = key.to_owned();
        let mut i: usize = entries.len();
        proof {
            assert(entries@.take(i as int) =~= entries@);
        }
        while i > 0
            invariant
                i <= entries.len(),
                k@ == key@,
                last_value(entries_view(entries@), key@) == last_value(entries_view(entries@.take(i as int)), key@),
            decreases i,
        {
            proof {
                assert(entries_view(entries@.take(i as int)).drop_last() =~= entries_view(entries@.take(i - 1)));
            }
            if entries[i - 1].0 == k {
                return Some(entries[i - 1].1.clone());
            }
            i -= 1;
        }
        None
    }

    /// The value of `key`: the overlay's when it defines one, whatever the
    /// process environment holds; `process_value` otherwise.
    pub fn get(entries: &Vec<(String, String)>, key: &str, process_value: Option<String>) -> (r: Option<String>)
        ensures
            match last_value(entries_view(entries@), key@) {
                Some(v) => r matches Some(s) && s@ == v,
                None => r == process_value,
            },
    {
        match Env::lookup(entries, key) {
            Some(v) => Some(v),
            None => process_value,
        }
    }
}

proof fn lemma_split_lines_nonempty(s: Seq<char>)
    ensures
        split_lines(s).len() >= 1,
    decreases s.len(),
{
    if s.len() > 0 {
        lemma_split_lines_nonempty(s.drop_last());
    }
}

/// Whether `c` is white space in the sense of `is_white_space`.
fn is_white_space_char(c: char) -> (r: bool)
    ensures
        r == is_white_space(c),
{
    c == '\t' || c == '\n' || c == '\u{0B}' || c == '\u{0C}' || c == '\r' || c == ' ' || c == '\u{85}'
        || c == '\u{A0}' || c == '\u{1680}' || ('\u{2000}' <= c && c <= '\u{200A}') || c == '\u{2028}'
        || c == '\u{2029}' || c == '\u{202F}' || c == '\u{205F}' || c == '\u{3000}'
}

/// The characters `v[lo..hi]`.
fn copy_range(v: &Vec<char>, lo: usize, hi: usize) -> (r: Vec<char>)
    requires
        lo <= hi <= v.len(),
    ensures
        r@ == v@.subrange(lo as int, hi as int),
{
    let mut r: Vec<char> = Vec::new();
    let mut i: usize = lo;
    while i < hi
        invariant
            lo <= i <= hi <= v.len(),
            r@ == v@.subrange(lo as int, i as int),
        decreases hi - i,
    {
        r.push(v[i]);
        i += 1;
        proof {
            assert(r@ =~= v@.subrange(lo as int, i as int));
        }
    }
    r
}

/// `v` without leading and trailing white space.
fn trim(v: &Vec<char>) -> (r: Vec<char>)
    ensures
        r@ == trimmed(v@),
{
    let mut lo: usize = 0;
    while lo < v.len() && is_white_space_char(v[lo])
        invariant
            lo <= v.len(),
            skip_white(v@, lo as int) == skip_white(v@, 0),
        decreases v.len() - lo,
    {
        lo += 1;
    }
    let mut hi: usize = v.len();
    while hi > lo && is_white_space_char(v[hi - 1])
        invariant
            lo <= hi <= v.len(),
            lo == skip_white(v@, 0),
            back_white(v@, lo as int, hi as int) == back_white(v@, lo as int, v.len() as int),
        decreases hi,
    {
        hi -= 1;
    }
    copy_range(v, lo, hi)
}

/// `v` without one pair of surrounding double quotes, if it has them.
fn unquote(v: Vec<char>) -> (r: Vec<char>)
    ensures
        r@ == unquoted(v@),
{
    if v.len() >= 2 && v[0] == '"' && v[v.len() - 1] == '"' {
        copy_range(&v, 1, v.len() - 1)
    } else {
        v
    }
}

/// The first index of `c` in `v`, or `v.len()`.
fn find_char(v: &Vec<char>, c: char) -> (r: usize)
    ensures
        r == find_from(v@, c, 0),
{
    let mut i: usize = 0;
    while i < v.len() && v[i] != c
        invariant
            i <= v.len(),
            find_from(v@, c, i as int) == find_from(v@, c, 0),
        decreases v.len() - i,
    {
        i += 1;
    }
    i
}

/// The entry that one line defines.
fn line_entry(line: &Vec<char>) -> (r: Option<(String, String)>)
    ensures
        match entry_of(line@) {
            None => r is None,
            Some(e) => r matches Some(p) && p.0@ == e.0 && p.1@ == e.1,
        },
{
    if line.len() > 0 && line[0] == '#' {
        return None;
    }
    let eq = find_char(line, '=');
    if eq >= line.len() {
        return None;
    }
    let k = trim(&copy_range(line, 0, eq));
    let v = unquote(trim(&copy_range(line, eq + 1, line.len())));
    if k.len() == 0 || v.len() == 0 {
        return None;
    }
    Some((string_of(&k), string_of(&v)))
}

/// The characters of `text`, in order.
fn chars_of(text: &str) -> (r: Vec<char>)
    ensures
        r@ == text@,
{
    broadcast use vstd::string::axiom_spec_iter, vstd::string::next_postcondition;
    let mut it = text.chars();
    let mut r: Vec<char> = Vec::new();
    loop
        invariant
            text@ == r@ + it.remaining(),
            it.decrease() is Some,
        ensures
            r@ == text@,
        decreases it.decrease()->0,
    {
        let ghost before = it;
        match it.next() {
            Some(c) => {
                r.push(c);
                proof {
                    assert(before.remaining().len() > 0);
                    assert(text@ =~= r@ + it.remaining());
                }
            },
            None => {
                proof {
                    assert(before.remaining().len() == 0);
                    assert(text@ =~= r@);
                }
                break;
            },
        }
    }
    r
}

/// Relies on `String::from_iter` over `&char`: the characters collected in order.
#[verifier::external_body]
fn string_of(cs: &Vec<char>) -> (r: String)
    ensures
        r@ == cs@,
{
    String::from_iter(cs.iter())
}

} // verus!
