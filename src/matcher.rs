use vstd::prelude::*;
use crate::rules::SortRule;

verus! {

/// `p` is a prefix of `s`, compared character by character.
pub open spec fn is_prefix(p: Seq<char>, s: Seq<char>) -> bool {
    p.len() <= s.len() && s.subrange(0, p.len() as int) == p
}

/// `d` is the position of the last `.` in `name`.
pub open spec fn is_last_dot(name: Seq<char>, d: int) -> bool {
    &&& 0 <= d < name.len()
    &&& name[d] == '.'
    &&& forall|j: int| d < j < name.len() ==> name[j] != '.'
}

/// The extension of a file name: what follows its last `.`, where that dot is
/// not the first character. The name `..` has none.
pub open spec fn extension_of(name: Seq<char>) -> Option<Seq<char>> {
    if exists|d: int| is_last_dot(name, d) {
        let d = choose|d: int| is_last_dot(name, d);
        if d > 0 && name != seq!['.', '.'] {
            Some(name.subrange(d + 1, name.len() as int))
        } else {
            None
        }
    } else {
        None
    }
}

/// The key that stands for a file without an extension.
pub open spec fn no_extension_key() -> Seq<char> {
    seq!['.', '[', 'N', 'O', ' ', 'E', 'X', 'T', ']']
}

/// The key by which extension patterns are looked up: `.` followed by the
/// extension, or the placeholder key where the name has no extension.
pub open spec fn extension_key(name: Seq<char>) -> Seq<char> {
    match extension_of(name) {
        Some(e) => seq!['.'] + e,
        None => no_extension_key(),
    }
}

/// A single pattern hits a file name: it is the name's extension key, or a
/// prefix of the name.
pub open spec fn pattern_hits(p: Seq<char>, name: Seq<char>) -> bool {
    p == extension_key(name) || is_prefix(p, name)
}

/// Some pattern of the collection hits the file name.
pub open spec fn matches_any_spec(patterns: Seq<String>, name: Seq<char>) -> bool {
    exists|i: int| 0 <= i < patterns.len() && pattern_hits(#[trigger] patterns[i]@, name)
}

/// Whether `p` occurs in `s` starting at character position `start`.
fn occurs_at(p: &str, s: &str, start: usize) -> (r: bool)
    requires
        start <= s@.len(),
    ensures
        r == (start + p@.len() <= s@.len() && s@.subrange(start as int, start + p@.len()) == p@),
{
    let plen = p.unicode_len();
    let slen = s.unicode_len();
    if plen > slen - start {
        return false;
    }
    let mut i: usize = 0;
    while i < plen
        invariant
            i <= plen,
            plen == p@.len(),
            slen == s@.len(),
            start + plen <= slen,
            forall|j: int| 0 <= j < i ==> s@[start + j] == p@[j],
        decreases plen - i,
    {
        if s.get_char(start + i) != p.get_char(i) {
            assert(s@.subrange(start as int, start + plen)[i as int] != p@[i as int]);
            return false;
        }
        i += 1;
    }
    assert(s@.subrange(start as int, start + plen) =~= p@);
    true
}

/// Whether `a` and `b` hold the same characters.
pub fn same_text(a: &str, b: &str) -> (r: bool)
    ensures
        r == (a@ == b@),
{
    let r = a.unicode_len() == b.unicode_len() && occurs_at(a, b, 0);
    proof {
        if r || a@ == b@ {
            assert(b@.subrange(0, b@.len() as int) =~= b@);
        }
    }
    r
}

/// Whether `name` starts with `p`.
pub fn starts_with(name: &str, p: &str) -> (r: bool)
    ensures
        r == is_prefix(p@, name@),
{
    occurs_at(p, name, 0)
}

/// The position of the `.` that opens the extension of `name`, if it has one.
fn extension_dot(name: &str) -> (r: Option<usize>)
    ensures
        match r {
            Some(d) => extension_of(name@) == Some(name@.subrange(d + 1, name@.len() as int))
                && 0 < d < name@.len() && name@[d as int] == '.',
            None => extension_of(name@) is None,
        },
{
    let len = name.unicode_len();
    let mut i: usize = len;
    while i > 0
        invariant
            i <= len,
            len == name@.len(),
            forall|j: int| i <= j < len ==> name@[j] != '.',
        decreases i,
    {
        if name.get_char(i - 1) == '.' {
            let d = i - 1;
            assert(is_last_dot(name@, d as int));
            assert forall|e: int| is_last_dot(name@, e) implies e == d by {
                if e < d {
                    assert(name@[d as int] == '.');
                }
            }
            if d > 0 && !(len == 2 && name.get_char(0) == '.') {
                assert(name@ != seq!['.', '.']) by {
                    if len == 2 {
                        assert(name@[0] != seq!['.', '.'][0]);
                    }
                }
                return Some(d);
            } else {
                assert(d > 0 ==> name@ =~= seq!['.', '.']);
                return None;
            }
        }
        i -= 1;
    }
    assert(!exists|d: int| is_last_dot(name@, d));
    None
}

/// Whether `p` is the extension key of `name`.
pub fn is_extension_key(p: &str, name: &str) -> (r: bool)
    ensures
        r == (p@ == extension_key(name@)),
{
    match extension_dot(name) {
        Some(d) => {
            let len = name.unicode_len();
            let r = p.unicode_len() == len - d && occurs_at(p, name, d);
            proof {
                let ext = name@.subrange(d + 1, name@.len() as int);
                let tail = name@.subrange(d as int, name@.len() as int);
                assert(seq!['.'] + ext =~= tail);
                assert(extension_key(name@) == tail);
                if p@ == tail {
                    assert(p@.len() == len - d);
                }
            }
            r
        },
        None => {
            let key = ".[NO EXT]";
            proof {
                reveal_strlit(".[NO EXT]");
                assert(key@ =~= no_extension_key());
            }
            let r = p.unicode_len() == key.unicode_len() && occurs_at(p, key, 0);
            proof {
                if r {
                    assert(key@.subrange(0, key@.len() as int) =~= key@);
                }
                if p@ == key@ {
                    assert(key@.subrange(0, key@.len() as int) =~= key@);
                }
            }
            r
        },
    }
}

/// Whether some pattern in `patterns` hits `name`: either it is `.` followed
/// by the name's extension (exact, case-sensitive), or it is a prefix of the
/// name (exact, case-sensitive).
pub fn matches_any(name: &str, patterns: &Vec<String>) -> (r: bool)
    ensures
        r == matches_any_spec(patterns@, name@),
{
    let mut i: usize = 0;
    while i < patterns.len()
        invariant
            i <= patterns@.len(),
            forall|j: int| 0 <= j < i ==> !pattern_hits(#[trigger] patterns@[j]@, name@),
        decreases patterns@.len() - i,
    {
        let p = patterns[i].as_str();
        if is_extension_key(p, name) || starts_with(name, p) {
            return true;
        }
        i += 1;
    }
    false
}

/// Entry `i` of the table has a pattern that is a prefix of the name.
pub open spec fn prefix_hit(table: Seq<SortRule>, name: Seq<char>, i: int) -> bool {
    0 <= i < table.len() && is_prefix(table[i].pattern@, name)
}

/// Entry `i` is the prefix hit with the longest pattern, the earliest of those
/// that are equally long.
pub open spec fn is_longest_hit(table: Seq<SortRule>, name: Seq<char>, i: int) -> bool {
    &&& prefix_hit(table, name, i)
    &&& forall|j: int|
        #[trigger] prefix_hit(table, name, j) ==> table[j].pattern@.len()
            <= table[i].pattern@.len()
    &&& forall|j: int|
        0 <= j < i && #[trigger] prefix_hit(table, name, j) ==> table[j].pattern@.len()
            < table[i].pattern@.len()
}

/// Entry `i` is the first whose pattern is exactly `key`.
pub open spec fn is_first_key(table: Seq<SortRule>, key: Seq<char>, i: int) -> bool {
    &&& 0 <= i < table.len()
    &&& table[i].pattern@ == key
    &&& forall|j: int| 0 <= j < i ==> #[trigger] table[j].pattern@ != key
}

pub open spec fn has_prefix_hit(table: Seq<SortRule>, name: Seq<char>) -> bool {
    exists|j: int| prefix_hit(table, name, j)
}

pub open spec fn has_key(table: Seq<SortRule>, key: Seq<char>) -> bool {
    exists|j: int| 0 <= j < table.len() && #[trigger] table[j].pattern@ == key
}

/// Some entry of the sort table applies to the file name.
pub open spec fn sort_applies(table: Seq<SortRule>, name: Seq<char>) -> bool {
    has_prefix_hit(table, name) || has_key(table, extension_key(name))
}

/// Entry `i` is the one that the sort table picks for the name: the longest
/// prefix hit where there is one, else the first entry keyed by the name's
/// extension key.
pub open spec fn is_sort_choice(table: Seq<SortRule>, name: Seq<char>, i: int) -> bool {
    if has_prefix_hit(table, name) {
        is_longest_hit(table, name, i)
    } else {
        is_first_key(table, extension_key(name), i)
    }
}

/// The entry of the sort table that applies to `name`: the one whose pattern
/// is the longest prefix of the name (the earliest among equally long ones);
/// failing that, the first whose pattern is the name's extension key.
pub fn first_match(name: &str, table: &Vec<SortRule>) -> (r: Option<usize>)
    ensures
        match r {
            Some(i) => is_sort_choice(table@, name@, i as int),
            None => !sort_applies(table@, name@),
        },
{
    let mut best: Option<usize> = None;
    let mut best_len: usize = 0;
    let mut i: usize = 0;
    while i < table.len()
        invariant
            i <= table@.len(),
            match best {
                Some(b) => {
                    &&& b < i
                    &&& prefix_hit(table@, name@, b as int)
                    &&& best_len == table@[b as int].pattern@.len()
                    &&& forall|j: int|
                        0 <= j < i && #[trigger] prefix_hit(table@, name@, j)
                            ==> table@[j].pattern@.len() <= best_len
                    &&& forall|j: int|
                        0 <= j < b && #[trigger] prefix_hit(table@, name@, j)
                            ==> table@[j].pattern@.len() < best_len
                },
                None => forall|j: int| 0 <= j < i ==> !#[trigger] prefix_hit(table@, name@, j),
            },
        decreases table@.len() - i,
    {
        let p = table[i].pattern.as_str();
        if starts_with(name, p) {
            let plen = p.unicode_len();
            match best {
                Some(_) => {
                    if plen > best_len {
                        best = Some(i);
                        best_len = plen;
                    }
                },
                None => {
                    best = Some(i);
                    best_len = plen;
                },
            }
        }
        i += 1;
    }
    if best.is_some() {
        return best;
    }
    let mut k: usize = 0;
    while k < table.len()
        invariant
            k <= table@.len(),
            !has_prefix_hit(table@, name@),
            forall|j: int| 0 <= j < k ==> #[trigger] table@[j].pattern@ != extension_key(name@),
        decreases table@.len() - k,
    {
        if is_extension_key(table[k].pattern.as_str(), name) {
            return Some(k);
        }
        k += 1;
    }
    None
}

} // verus!
