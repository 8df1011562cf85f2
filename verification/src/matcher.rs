use vstd::prelude::*;
use crate::text::{is_space, is_space_char, string_from_chars, subrange_chars, to_chars, to_lower,
    to_lower_char};

verus! {

/// The first position at or after `i` holding a non-space character, or
/// the end of the string.
pub open spec fn skip_spaces(s: Seq<char>, i: int) -> int
    decreases s.len() - i,
{
    if 0 <= i < s.len() && is_space_char(s[i]) {
        skip_spaces(s, i + 1)
    } else {
        i
    }
}

/// Whether the keyword stands at position `i`, compared ASCII
/// case-insensitively.
pub open spec fn has_keyword_at(s: Seq<char>, i: int, kw: Seq<char>) -> bool {
    &&& 0 <= i
    &&& i + kw.len() <= s.len()
    &&& forall|j: int|
        0 <= j < kw.len() ==> to_lower_char(s[i + j]) == to_lower_char(kw[j])
}

pub open spec fn kw_insert() -> Seq<char> {
    seq!['i', 'n', 's', 'e', 'r', 't']
}

pub open spec fn kw_into() -> Seq<char> {
    seq!['i', 'n', 't', 'o']
}

pub open spec fn kw_values() -> Seq<char> {
    seq!['v', 'a', 'l', 'u', 'e', 's']
}

/// The end of the table name: the first position at or after `i` holding a
/// space or an opening parenthesis, or the end of the string.
pub open spec fn scan_table_end(s: Seq<char>, i: int) -> int
    decreases s.len() - i,
{
    if 0 <= i < s.len() && !is_space_char(s[i]) && s[i] != '(' {
        scan_table_end(s, i + 1)
    } else {
        i
    }
}

/// The first position at or after `i` holding `)`, or the end of the
/// string.
pub open spec fn find_rparen(s: Seq<char>, i: int) -> int
    decreases s.len() - i,
{
    if 0 <= i < s.len() {
        if s[i] == ')' {
            i
        } else {
            find_rparen(s, i + 1)
        }
    } else {
        s.len() as int
    }
}

/// The header of a single-line `INSERT` statement: `INSERT INTO <table>
/// (<columns>) VALUES`, keywords matched case-insensitively. On a match,
/// the raw table name, the raw column-list fragment between the first
/// parentheses, and the position right after the `VALUES` keyword.
pub open spec fn match_header_spec(s: Seq<char>) -> Option<(Seq<char>, Seq<char>, int)> {
    if !has_keyword_at(s, 0, kw_insert()) {
        None
    } else {
        let a = skip_spaces(s, 6);
        if a == 6 || !has_keyword_at(s, a, kw_into()) {
            None
        } else {
            let b = skip_spaces(s, a + 4);
            if b == a + 4 {
                None
            } else {
                let te = scan_table_end(s, b);
                if te == b {
                    None
                } else {
                    let p = skip_spaces(s, te);
                    if !(p < s.len() && s[p] == '(') {
                        None
                    } else {
                        let q = find_rparen(s, p + 1);
                        if q >= s.len() {
                            None
                        } else {
                            let w = skip_spaces(s, q + 1);
                            if !has_keyword_at(s, w, kw_values()) {
                                None
                            } else {
                                Some((s.subrange(b, te), s.subrange(p + 1, q), w + 6))
                            }
                        }
                    }
                }
            }
        }
    }
}

/// The table name and column-list fragment of an `INSERT` header, used
/// during schema discovery; the line needs no value list or terminator.
pub open spec fn match_header_pair(s: Seq<char>) -> Option<(Seq<char>, Seq<char>)> {
    match match_header_spec(s) {
        Some((t, c, av)) => Some((t, c)),
        None => None,
    }
}

/// A whole single-line `INSERT` statement: the header, then `(<values>);`
/// ending the line. On a match, the raw table name, column-list fragment
/// and value-list fragment.
pub open spec fn match_insert_spec(s: Seq<char>) -> Option<(Seq<char>, Seq<char>, Seq<char>)> {
    match match_header_spec(s) {
        None => None,
        Some((t, c, av)) => {
            let u = skip_spaces(s, av);
            if u < s.len() && s[u] == '(' && s.len() - u >= 3 && s[s.len() - 2] == ')' && s[s.len()
                - 1] == ';' {
                Some((t, c, s.subrange(u + 1, s.len() - 2)))
            } else {
                None
            }
        },
    }
}

fn skip_spaces_exec(v: &Vec<char>, start: usize) -> (r: usize)
    requires
        start <= v@.len(),
    ensures
        r == skip_spaces(v@, start as int),
        start <= r <= v@.len(),
{
    let n: usize = v.len();
    let mut i: usize = start;
    while i < n && is_space(v[i])
        invariant
            start <= i <= n,
            n == v@.len(),
            skip_spaces(v@, start as int) == skip_spaces(v@, i as int),
        decreases n - i,
    {
        i = i + 1;
    }
    i
}

fn scan_table_exec(v: &Vec<char>, start: usize) -> (r: usize)
    requires
        start <= v@.len(),
    ensures
        r == scan_table_end(v@, start as int),
        start <= r <= v@.len(),
{
    let n: usize = v.len();
    let mut i: usize = start;
    while i < n && !is_space(v[i]) && v[i] != '('
        invariant
            start <= i <= n,
            n == v@.len(),
            scan_table_end(v@, start as int) == scan_table_end(v@, i as int),
        decreases n - i,
    {
        i = i + 1;
    }
    i
}

fn find_rparen_exec(v: &Vec<char>, start: usize) -> (r: usize)
    requires
        start <= v@.len(),
    ensures
        r == find_rparen(v@, start as int),
        start <= r <= v@.len(),
{
    let n: usize = v.len();
    let mut i: usize = start;
    while i < n && v[i] != ')'
        invariant
            start <= i <= n,
            n == v@.len(),
            find_rparen(v@, start as int) == find_rparen(v@, i as int),
        decreases n - i,
    {
        i = i + 1;
    }
    i
}

fn keyword_at(v: &Vec<char>, i: usize, kw: &Vec<char>) -> (r: bool)
    requires
        i <= v@.len(),
    ensures
        r == has_keyword_at(v@, i as int, kw@),
{
    let n: usize = v.len();
    let m: usize = kw.len();
    if m > n - i {
        return false;
    }
    let mut j: usize = 0;
    while j < m
        invariant
            j <= m,
            m == kw@.len(),
            n == v@.len(),
            i + m <= n,
            forall|k: int|
                0 <= k < j ==> to_lower_char(v@[i + k]) == to_lower_char(kw@[k]),
        decreases m - j,
    {
        if to_lower(v[i + j]) != to_lower(kw[j]) {
            proof {
                assert(to_lower_char(v@[i + j as int]) != to_lower_char(kw@[j as int]));
            }
            return false;
        }
        j = j + 1;
    }
    true
}

/// Finds the header's fragments as index ranges into the character vector.
fn match_header_idx(cs: &Vec<char>) -> (r: Option<(usize, usize, usize, usize, usize)>)
    ensures
        match r {
            Some(idx) => {
                &&& idx.0 <= idx.1 <= cs@.len()
                &&& idx.2 <= idx.3 <= cs@.len()
                &&& idx.4 <= cs@.len()
                &&& match_header_spec(cs@) == Some(
                    (
                        cs@.subrange(idx.0 as int, idx.1 as int),
                        cs@.subrange(idx.2 as int, idx.3 as int),
                        idx.4 as int,
                    ),
                )
            },
            None => match_header_spec(cs@) is None,
        },
{
    let n: usize = cs.len();
    let kw_ins: Vec<char> = vec!['i', 'n', 's', 'e', 'r', 't'];
    proof {
        assert(kw_ins@ =~= kw_insert());
    }
    if !keyword_at(cs, 0, &kw_ins) {
        return None;
    }
    let a = skip_spaces_exec(cs, 6);
    if a == 6 {
        return None;
    }
    let kw_in: Vec<char> = vec!['i', 'n', 't', 'o'];
    proof {
        assert(kw_in@ =~= kw_into());
    }
    if !keyword_at(cs, a, &kw_in) {
        return None;
    }
    let b = skip_spaces_exec(cs, a + 4);
    if b == a + 4 {
        return None;
    }
    let te = scan_table_exec(cs, b);
    if te == b {
        return None;
    }
    let p = skip_spaces_exec(cs, te);
    if p >= n || cs[p] != '(' {
        return None;
    }
    let q = find_rparen_exec(cs, p + 1);
    if q >= n {
        return None;
    }
    let w = skip_spaces_exec(cs, q + 1);
    let kw_val: Vec<char> = vec!['v', 'a', 'l', 'u', 'e', 's'];
    proof {
        assert(kw_val@ =~= kw_values());
    }
    if !keyword_at(cs, w, &kw_val) {
        return None;
    }
    Some((b, te, p + 1, q, w + 6))
}

/// Recognizes a schema-discovery `INSERT` header and hands back the raw
/// table name and column-list fragment.
pub fn match_insert_header(line: &str) -> (r: Option<(String, String)>)
    ensures
        match r {
            Some(p) => match_header_pair(line@) == Some((p.0@, p.1@)),
            None => match_header_pair(line@) is None,
        },
{
    let cs = to_chars(line);
    match match_header_idx(&cs) {
        None => None,
        Some(idx) => {
            let t = string_from_chars(&subrange_chars(&cs, idx.0, idx.1));
            let c = string_from_chars(&subrange_chars(&cs, idx.2, idx.3));
            Some((t, c))
        },
    }
}

/// Recognizes a whole single-line `INSERT ... VALUES (...);` statement and
/// hands back the raw table name, column-list fragment and value-list
/// fragment; `None` for every other line.
pub fn match_insert(line: &str) -> (r: Option<(String, String, String)>)
    ensures
        match r {
            Some(f) => match_insert_spec(line@) == Some((f.0@, f.1@, f.2@)),
            None => match_insert_spec(line@) is None,
        },
{
    let cs = to_chars(line);
    let n: usize = cs.len();
    match match_header_idx(&cs) {
        None => None,
        Some(idx) => {
            let u = skip_spaces_exec(&cs, idx.4);
            if u < n && cs[u] == '(' && n - u >= 3 && cs[n - 2] == ')' && cs[n - 1] == ';' {
                let t = string_from_chars(&subrange_chars(&cs, idx.0, idx.1));
                let c = string_from_chars(&subrange_chars(&cs, idx.2, idx.3));
                let v = string_from_chars(&subrange_chars(&cs, u + 1, n - 2));
                Some((t, c, v))
            } else {
                None
            }
        },
    }
}

} // verus!
