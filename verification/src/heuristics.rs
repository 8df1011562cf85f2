use vstd::prelude::*;
use vstd::string::StringExecFns;
use crate::config::ColumnStrategy;
use crate::text::{to_chars, to_lower, to_lower_char};

verus! {

/// The ASCII-lowercased copy of a string.
pub open spec fn lower_spec(s: Seq<char>) -> Seq<char> {
    Seq::new(s.len(), |i: int| to_lower_char(s[i]))
}

/// Whether `s` ends with `suffix`.
pub open spec fn ends_with_spec(s: Seq<char>, suffix: Seq<char>) -> bool {
    s.len() >= suffix.len() && s.subrange(s.len() - suffix.len(), s.len() as int) == suffix
}

/// Whether `sub` occurs somewhere in `s`.
pub open spec fn contains_spec(s: Seq<char>, sub: Seq<char>) -> bool {
    exists|i: int| 0 <= i && i + sub.len() <= s.len() && #[trigger] s.subrange(i, i + sub.len())
        == sub
}

fn lower_chars(v: &Vec<char>) -> (r: Vec<char>)
    ensures
        r@ == lower_spec(v@),
{
    let n: usize = v.len();
    let mut r: Vec<char> = Vec::new();
    let mut i: usize = 0;
    while i < n
        invariant
            i <= n,
            n == v@.len(),
            r@.len() == i,
            forall|j: int| 0 <= j < i ==> r@[j] == to_lower_char(v@[j]),
        decreases n - i,
    {
        r.push(to_lower(v[i]));
        i = i + 1;
    }
    proof {
        assert(r@ =~= lower_spec(v@));
    }
    r
}

fn eq_str(v: &Vec<char>, lit: &str) -> (r: bool)
    ensures
        r == (v@ == lit@),
{
    let l = to_chars(lit);
    let n: usize = v.len();
    if n != l.len() {
        return false;
    }
    let mut i: usize = 0;
    while i < n
        invariant
            i <= n,
            n == v@.len() == l@.len(),
            l@ == lit@,
            forall|j: int| 0 <= j < i ==> v@[j] == l@[j],
        decreases n - i,
    {
        if v[i] != l[i] {
            return false;
        }
        i = i + 1;
    }
    proof {
        assert(v@ =~= lit@);
    }
    true
}

fn ends_with_str(v: &Vec<char>, lit: &str) -> (r: bool)
    ensures
        r == ends_with_spec(v@, lit@),
{
    let l = to_chars(lit);
    let n: usize = v.len();
    let m: usize = l.len();
    if m > n {
        return false;
    }
    let start: usize = n - m;
    let mut i: usize = 0;
    while i < m
        invariant
            i <= m,
            m <= n,
            start == n - m,
            n == v@.len(),
            m == l@.len(),
            l@ == lit@,
            forall|j: int| 0 <= j < i ==> v@[start + j] == l@[j],
        decreases m - i,
    {
        if v[start + i] != l[i] {
            proof {
                assert(v@.subrange(start as int, n as int)[i as int] != l@[i as int]);
            }
            return false;
        }
        i = i + 1;
    }
    proof {
        assert(v@.subrange(start as int, n as int) =~= lit@);
    }
    true
}

fn contains_str(v: &Vec<char>, lit: &str) -> (r: bool)
    ensures
        r == contains_spec(v@, lit@),
{
    let l = to_chars(lit);
    let n: usize = v.len();
    let m: usize = l.len();
    if m > n {
        return false;
    }
    let mut i: usize = 0;
    while i <= n - m
        invariant
            m <= n,
            i <= n - m + 1,
            n == v@.len(),
            m == l@.len(),
            l@ == lit@,
            forall|k: int| 0 <= k < i ==> #[trigger] v@.subrange(k, k + m) != lit@,
        decreases n + 1 - m - i,
    {
        let mut j: usize = 0;
        while j < m && v[i + j] == l[j]
            invariant
                j <= m,
                i + m <= n,
                n == v@.len(),
                m == l@.len(),
                l@ == lit@,
                forall|k: int| 0 <= k < j ==> v@[i + k] == l@[k],
            decreases m - j,
        {
            j = j + 1;
        }
        if j == m {
            proof {
                assert(v@.subrange(i as int, i + m) =~= lit@);
            }
            return true;
        }
        proof {
            assert(v@.subrange(i as int, i + m)[j as int] != lit@[j as int]);
            assert(v@.subrange(i as int, i + m) != lit@);
        }
        i = i + 1;
    }
    proof {
        assert forall|k: int| 0 <= k && k + lit@.len() <= v@.len() implies #[trigger] v@.subrange(
            k,
            k + lit@.len(),
        ) != lit@ by {
            assert(k < i);
        }
    }
    false
}

/// What the column-name heuristic proposes for a name: identifier-, time-
/// and money-like names are kept; contact-like names get the matching
/// semantic category; address-like and secret-like names get a fixed
/// placeholder; free-text names are masked; anything else is kept.
pub open spec fn guess_spec_matches(name: Seq<char>, r: ColumnStrategy) -> bool {
    let lower = lower_spec(name);
    if lower == ("id")@ || ends_with_spec(lower, ("_id")@) || ends_with_spec(lower, ("uuid")@)
        || ends_with_spec(lower, ("guid")@) {
        r == ColumnStrategy::Keep
    } else if contains_spec(lower, ("date")@) || contains_spec(lower, ("time")@)
        || ends_with_spec(lower, ("_at")@) {
        r == ColumnStrategy::Keep
    } else if contains_spec(lower, ("amount")@) || contains_spec(lower, ("price")@)
        || contains_spec(lower, ("sum")@) || contains_spec(lower, ("total")@) || contains_spec(
        lower,
        ("balance")@,
    ) || contains_spec(lower, ("cost")@) || contains_spec(lower, ("currency")@) {
        r == ColumnStrategy::Keep
    } else if contains_spec(lower, ("email")@) {
        r == ColumnStrategy::Email
    } else if contains_spec(lower, ("phone")@) || contains_spec(lower, ("mobile")@) {
        r == ColumnStrategy::Phone
    } else if lower == ("first_name")@ || lower == ("firstname")@ {
        r == ColumnStrategy::FirstName
    } else if lower == ("last_name")@ || lower == ("lastname")@ || lower == ("surname")@ {
        r == ColumnStrategy::LastName
    } else if contains_spec(lower, ("name")@) && !contains_spec(lower, ("user")@)
        && !contains_spec(lower, ("file")@) && !contains_spec(lower, ("domain")@) {
        r == ColumnStrategy::FullName
    } else if contains_spec(lower, ("address")@) || contains_spec(lower, ("city")@)
        || contains_spec(lower, ("street")@) {
        r matches ColumnStrategy::Fixed(s) && s@ == ("ANONYMIZED ADDRESS")@
    } else if contains_spec(lower, ("password")@) || contains_spec(lower, ("token")@)
        || contains_spec(lower, ("secret")@) || contains_spec(lower, ("key")@) {
        r matches ColumnStrategy::Fixed(s) && s@ == ("REDACTED_SECRET")@
    } else if contains_spec(lower, ("description")@) || contains_spec(lower, ("comment")@)
        || contains_spec(lower, ("note")@) {
        r == ColumnStrategy::Mask
    } else {
        r == ColumnStrategy::Keep
    }
}

/// Proposes a strategy for a column from its name alone, used when a dump
/// is scanned to draft a configuration.
pub fn guess_strategy(col_name: &str) -> (r: ColumnStrategy)
    ensures
        guess_spec_matches(col_name@, r),
{
    let cs = to_chars(col_name);
    let lower = lower_chars(&cs);
    if eq_str(&lower, "id") || ends_with_str(&lower, "_id") || ends_with_str(&lower, "uuid")
        || ends_with_str(&lower, "guid") {
        return ColumnStrategy::Keep;
    }
    if contains_str(&lower, "date") || contains_str(&lower, "time") || ends_with_str(
        &lower,
        "_at",
    ) {
        return ColumnStrategy::Keep;
    }
    if contains_str(&lower, "amount") || contains_str(&lower, "price") || contains_str(
        &lower,
        "sum",
    ) || contains_str(&lower, "total") || contains_str(&lower, "balance") || contains_str(
        &lower,
        "cost",
    ) || contains_str(&lower, "currency") {
        return ColumnStrategy::Keep;
    }
    if contains_str(&lower, "email") {
        return ColumnStrategy::Email;
    }
    if contains_str(&lower, "phone") || contains_str(&lower, "mobile") {
        return ColumnStrategy::Phone;
    }
    if eq_str(&lower, "first_name") || eq_str(&lower, "firstname") {
        return ColumnStrategy::FirstName;
    }
    if eq_str(&lower, "last_name") || eq_str(&lower, "lastname") || eq_str(&lower, "surname") {
        return ColumnStrategy::LastName;
    }
    if contains_str(&lower, "name") && !contains_str(&lower, "user") && !contains_str(
        &lower,
        "file",
    ) && !contains_str(&lower, "domain") {
        return ColumnStrategy::FullName;
    }
    if contains_str(&lower, "address") || contains_str(&lower, "city") || contains_str(
        &lower,
        "street",
    ) {
        return ColumnStrategy::Fixed(String::from_str("ANONYMIZED ADDRESS"));
    }
    if contains_str(&lower, "password") || contains_str(&lower, "token") || contains_str(
        &lower,
        "secret",
    ) || contains_str(&lower, "key") {
        return ColumnStrategy::Fixed(String::from_str("REDACTED_SECRET"));
    }
    if contains_str(&lower, "description") || contains_str(&lower, "comment") || contains_str(
        &lower,
        "note",
    ) {
        return ColumnStrategy::Mask;
    }
    ColumnStrategy::Keep
}

} // verus!
