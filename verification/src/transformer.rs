use vstd::prelude::*;
use vstd::string::StringExecFns;
use crate::config::ColumnStrategy;
use crate::text::{string_from_chars, subrange_chars, to_chars, trim_chars, trim_spec};
use fake::Fake;
use rand::SeedableRng;

verus! {

/// The first name drawn from a generator seeded with the given value.
pub uninterp spec fn first_name_of(seed: u64) -> Seq<char>;

/// The last name drawn from a generator seeded with the given value.
pub uninterp spec fn last_name_of(seed: u64) -> Seq<char>;

/// The full name drawn from a generator seeded with the given value.
pub uninterp spec fn full_name_of(seed: u64) -> Seq<char>;

/// The email address drawn from a generator seeded with the given value.
pub uninterp spec fn email_of(seed: u64) -> Seq<char>;

/// The phone number drawn from a generator seeded with the given value.
pub uninterp spec fn phone_of(seed: u64) -> Seq<char>;

/// Relies on rand::rngs::StdRng::seed_from_u64, which builds the same
/// generator state from the same seed, and on fake::faker::name::en::FirstName
/// with Fake::fake_with_rng, which draws from that generator alone; the
/// result is therefore a function of the seed.
#[verifier::external_body]
fn fake_first_name(seed: u64) -> (r: String)
    ensures
        r@ == first_name_of(seed),
{
    let mut rng = rand::rngs::StdRng::seed_from_u64(seed);
    fake::faker::name::en::FirstName().fake_with_rng(&mut rng)
}

/// Relies on rand::rngs::StdRng::seed_from_u64 and on
/// fake::faker::name::en::LastName with Fake::fake_with_rng; the result is a
/// function of the seed.
#[verifier::external_body]
fn fake_last_name(seed: u64) -> (r: String)
    ensures
        r@ == last_name_of(seed),
{
    let mut rng = rand::rngs::StdRng::seed_from_u64(seed);
    fake::faker::name::en::LastName().fake_with_rng(&mut rng)
}

/// Relies on rand::rngs::StdRng::seed_from_u64 and on
/// fake::faker::name::en::Name with Fake::fake_with_rng; the result is a
/// function of the seed.
#[verifier::external_body]
fn fake_full_name(seed: u64) -> (r: String)
    ensures
        r@ == full_name_of(seed),
{
    let mut rng = rand::rngs::StdRng::seed_from_u64(seed);
    fake::faker::name::en::Name().fake_with_rng(&mut rng)
}

/// Relies on rand::rngs::StdRng::seed_from_u64 and on
/// fake::faker::internet::en::SafeEmail with Fake::fake_with_rng; the result
/// is a function of the seed.
#[verifier::external_body]
fn fake_email(seed: u64) -> (r: String)
    ensures
        r@ == email_of(seed),
{
    let mut rng = rand::rngs::StdRng::seed_from_u64(seed);
    fake::faker::internet::en::SafeEmail().fake_with_rng(&mut rng)
}

/// Relies on rand::rngs::StdRng::seed_from_u64 and on
/// fake::faker::phone_number::en::PhoneNumber with Fake::fake_with_rng; the
/// result is a function of the seed.
#[verifier::external_body]
fn fake_phone(seed: u64) -> (r: String)
    ensures
        r@ == phone_of(seed),
{
    let mut rng = rand::rngs::StdRng::seed_from_u64(seed);
    fake::faker::phone_number::en::PhoneNumber().fake_with_rng(&mut rng)
}

pub const FNV_OFFSET: u64 = 0xcbf29ce484222325;

pub const FNV_PRIME: u64 = 0x100000001b3;

/// One round of the 64-bit FNV-1a style mix that derives per-value seeds.
pub open spec fn fnv_step(h: u64, x: u64) -> u64 {
    (h ^ x).wrapping_mul(FNV_PRIME)
}

/// The hash state after mixing in the characters of `s` from position `i`.
pub open spec fn hash_chars_from(s: Seq<char>, i: int, h: u64) -> u64
    decreases s.len() - i,
{
    if 0 <= i < s.len() {
        hash_chars_from(s, i + 1, fnv_step(h, s[i] as u64))
    } else {
        h
    }
}

/// The per-value seed: a stable hash of the global seed and the unquoted
/// original value, so that equal values map to equal substitutes.
pub open spec fn derive_seed_spec(global: u64, s: Seq<char>) -> u64 {
    hash_chars_from(s, 0, fnv_step(FNV_OFFSET, global))
}

/// Derives the 64-bit seed for one value from the global seed and the
/// value's characters.
pub fn derive_seed(global: u64, v: &Vec<char>) -> (r: u64)
    ensures
        r == derive_seed_spec(global, v@),
{
    let mut h: u64 = (FNV_OFFSET ^ global).wrapping_mul(FNV_PRIME);
    let mut i: usize = 0;
    while i < v.len()
        invariant
            i <= v@.len(),
            hash_chars_from(v@, i as int, h) == derive_seed_spec(global, v@),
        decreases v@.len() - i,
    {
        h = (h ^ (v[i] as u64)).wrapping_mul(FNV_PRIME);
        i = i + 1;
    }
    h
}

/// The number of occurrences of `c` in `s` at or after position `i`.
pub open spec fn count_from(s: Seq<char>, i: int, c: char) -> int
    decreases s.len() - i,
{
    if 0 <= i < s.len() {
        (if s[i] == c {
            1int
        } else {
            0int
        }) + count_from(s, i + 1, c)
    } else {
        0
    }
}

/// The first position of `c` in `s` at or after position `i`, or `s.len()`
/// when there is none.
pub open spec fn find_from(s: Seq<char>, i: int, c: char) -> int
    decreases s.len() - i,
{
    if 0 <= i < s.len() {
        if s[i] == c {
            i
        } else {
            find_from(s, i + 1, c)
        }
    } else {
        s.len() as int
    }
}

pub(crate) proof fn lemma_find_found(s: Seq<char>, i: int, c: char)
    requires
        0 <= i <= s.len(),
        count_from(s, i, c) > 0,
    ensures
        i <= find_from(s, i, c) < s.len(),
        s[find_from(s, i, c)] == c,
        forall|j: int| i <= j < find_from(s, i, c) ==> s[j] != c,
    decreases s.len() - i,
{
    if s[i] != c {
        lemma_find_found(s, i + 1, c);
    }
}

/// The result of the `Mask` strategy on an unquoted value: for a value with
/// exactly one `@`, the first character of the local part (or `***` when
/// the local part has at most one character) then `***@` and the domain
/// verbatim; for a value without `@`, its first character then `***` (or a
/// bare `*` when it has at most one character); for anything else a fixed
/// placeholder.
pub open spec fn mask_spec(s: Seq<char>) -> Seq<char> {
    let cnt = count_from(s, 0, '@');
    if cnt == 1 {
        let k = find_from(s, 0, '@');
        let local = s.subrange(0, k);
        let domain = s.subrange(k + 1, s.len() as int);
        (if local.len() > 1 {
            seq![local[0], '*', '*', '*']
        } else {
            seq!['*', '*', '*']
        }) + seq!['@'] + domain
    } else if cnt == 0 {
        if s.len() > 1 {
            seq![s[0], '*', '*', '*']
        } else {
            seq!['*']
        }
    } else {
        seq!['*', '*', '*', '@', 'u', 'n', 'k', 'n', 'o', 'w', 'n', '.', 'c', 'o', 'm']
    }
}

/// Applies the `Mask` strategy to an unquoted value.
fn mask_chars(v: &Vec<char>) -> (r: Vec<char>)
    ensures
        r@ == mask_spec(v@),
{
    let n: usize = v.len();
    let mut cnt: usize = 0;
    let mut i: usize = 0;
    while i < n
        invariant
            i <= n,
            n == v@.len(),
            cnt <= i,
            cnt + count_from(v@, i as int, '@') == count_from(v@, 0, '@'),
        decreases n - i,
    {
        if v[i] == '@' {
            cnt = cnt + 1;
        }
        i = i + 1;
    }
    let mut r: Vec<char> = Vec::new();
    if cnt == 1 {
        proof {
            lemma_find_found(v@, 0, '@');
        }
        let ghost f = find_from(v@, 0, '@');
        let mut k: usize = 0;
        while k < n && v[k] != '@'
            invariant
                n == v@.len(),
                k <= f < n,
                v@[f] == '@',
                forall|j: int| 0 <= j < f ==> v@[j] != '@',
            decreases n - k,
        {
            k = k + 1;
        }
        proof {
            assert(k == f);
        }
        if k > 1 {
            r.push(v[0]);
        }
        r.push('*');
        r.push('*');
        r.push('*');
        r.push('@');
        let mut j: usize = k + 1;
        let ghost head = r@;
        while j < n
            invariant
                k + 1 <= j <= n,
                n == v@.len(),
                r@ == head + v@.subrange(k + 1, j as int),
            decreases n - j,
        {
            r.push(v[j]);
            j = j + 1;
            proof {
                assert(r@ =~= head + v@.subrange(k + 1, j as int));
            }
        }
        proof {
            assert(r@ =~= mask_spec(v@));
        }
    } else if cnt == 0 {
        if n > 1 {
            r.push(v[0]);
            r.push('*');
            r.push('*');
            r.push('*');
        } else {
            r.push('*');
        }
        proof {
            assert(r@ =~= mask_spec(v@));
        }
    } else {
        r.push('*');
        r.push('*');
        r.push('*');
        r.push('@');
        r.push('u');
        r.push('n');
        r.push('k');
        r.push('n');
        r.push('o');
        r.push('w');
        r.push('n');
        r.push('.');
        r.push('c');
        r.push('o');
        r.push('m');
        proof {
            assert(r@ =~= mask_spec(v@));
        }
    }
    r
}

/// Whether a token is wrapped in single quotes.
pub open spec fn is_quoted(v: Seq<char>) -> bool {
    v.len() >= 2 && v[0] == '\'' && v[v.len() - 1] == '\''
}

/// The token without its surrounding single quotes, when it has them.
pub open spec fn unquote(v: Seq<char>) -> Seq<char> {
    if is_quoted(v) {
        v.subrange(1, v.len() - 1)
    } else {
        v
    }
}

/// Re-wraps a substitute in single quotes when the original token had them.
pub open spec fn requote(out: Seq<char>, quoted: bool) -> Seq<char> {
    if quoted {
        seq!['\''] + out + seq!['\'']
    } else {
        out
    }
}

/// What `Transformer::transform` returns: a pure function of the original
/// token, the strategy and the global seed. `Keep` returns the token as it
/// stands; every other strategy works on the unquoted content and re-wraps
/// its substitute in the original token's quoting.
pub open spec fn transform_spec(v: Seq<char>, strategy: ColumnStrategy, seed: u64) -> Seq<char> {
    match strategy {
        ColumnStrategy::Keep => v,
        _ => {
            let clean = unquote(v);
            let out = match strategy {
                ColumnStrategy::FirstName => first_name_of(derive_seed_spec(seed, clean)),
                ColumnStrategy::LastName => last_name_of(derive_seed_spec(seed, clean)),
                ColumnStrategy::FullName => full_name_of(derive_seed_spec(seed, clean)),
                ColumnStrategy::Email => email_of(derive_seed_spec(seed, clean)),
                ColumnStrategy::Phone => phone_of(derive_seed_spec(seed, clean)),
                ColumnStrategy::Mask => mask_spec(clean),
                ColumnStrategy::Fixed(s) => s@,
                ColumnStrategy::Keep => v,
            };
            requote(out, is_quoted(v))
        },
    }
}

/// The deterministic value generator: replaces one value token according to
/// a strategy, keyed by the global seed.
pub struct Transformer {
    pub global_seed: u64,
}

impl Transformer {
    pub fn new(seed: u64) -> (r: Self)
        ensures
            r.global_seed == seed,
    {
        Self { global_seed: seed }
    }

    /// Produces the substitute for one value token. The result is pinned to
    /// `transform_spec`, a function of the token, the strategy and the
    /// seed alone, which makes the generator reproducible across runs.
    pub fn transform(&self, value: &str, strategy: &ColumnStrategy) -> (r: String)
        ensures
            r@ == transform_spec(value@, *strategy, self.global_seed),
    {
        if let ColumnStrategy::Keep = strategy {
            return value.to_owned();
        }
        let cs = to_chars(value);
        let n: usize = cs.len();
        let quoted: bool = n >= 2 && cs[0] == '\'' && cs[n - 1] == '\'';
        proof {
            assert(quoted == is_quoted(value@));
        }
        let clean: Vec<char> = if quoted {
            subrange_chars(&cs, 1, n - 1)
        } else {
            cs
        };
        proof {
            assert(clean@ == unquote(value@));
        }
        let out: String = match strategy {
            ColumnStrategy::FirstName => fake_first_name(derive_seed(self.global_seed, &clean)),
            ColumnStrategy::LastName => fake_last_name(derive_seed(self.global_seed, &clean)),
            ColumnStrategy::FullName => fake_full_name(derive_seed(self.global_seed, &clean)),
            ColumnStrategy::Email => fake_email(derive_seed(self.global_seed, &clean)),
            ColumnStrategy::Phone => fake_phone(derive_seed(self.global_seed, &clean)),
            ColumnStrategy::Mask => string_from_chars(&mask_chars(&clean)),
            ColumnStrategy::Fixed(s) => s.clone(),
            ColumnStrategy::Keep => value.to_owned(),
        };
        if quoted {
            let mut w: String = String::new();
            crate::text::push_char(&mut w, '\'');
            w.append(out.as_str());
            crate::text::push_char(&mut w, '\'');
            proof {
                assert(w@ =~= requote(out@, true));
            }
            w
        } else {
            out
        }
    }

    /// Splits the raw text between the parentheses of a `VALUES (...)`
    /// clause into trimmed tokens, on commas that stand outside single
    /// quotes; a backslash escapes the character after it.
    pub fn parse_values(values_str: &str) -> (r: Vec<String>)
        ensures
            r.deep_view() == split_values_spec(values_str@),
    {
        let cs = to_chars(values_str);
        let n: usize = cs.len();
        let mut result: Vec<String> = Vec::new();
        let mut cur: Vec<char> = Vec::new();
        let mut in_quotes: bool = false;
        let mut escape: bool = false;
        let mut i: usize = 0;
        proof {
            assert(cur@ =~= Seq::<char>::empty());
            assert(result.deep_view() =~= Seq::<Seq<char>>::empty());
        }
        while i < n
            invariant
                i <= n,
                n == cs@.len(),
                cs@ == values_str@,
                split_values_rec(cs@, i as int, in_quotes, escape, cur@, result.deep_view())
                    == split_values_spec(cs@),
            decreases n - i,
        {
            let ghost prev_dv = result.deep_view();
            let c = cs[i];
            if escape {
                cur.push(c);
                escape = false;
            } else if c == '\'' {
                in_quotes = !in_quotes;
                cur.push(c);
            } else if c == '\\' {
                escape = true;
                cur.push(c);
            } else if c == ',' && !in_quotes {
                let trimmed = trim_chars(&cur);
                let token = string_from_chars(&trimmed);
                result.push(token);
                cur = Vec::new();
                proof {
                    assert(result.deep_view() =~= prev_dv.push(token@));
                }
            } else {
                cur.push(c);
            }
            i = i + 1;
        }
        let trimmed = trim_chars(&cur);
        if trimmed.len() > 0 {
            let ghost prev_dv = result.deep_view();
            let token = string_from_chars(&trimmed);
            result.push(token);
            proof {
                assert(result.deep_view() =~= prev_dv.push(token@));
            }
        }
        result
    }
}

/// The token list that `Transformer::parse_values` returns for the given
/// raw value-list text, defined by the splitter's state machine: position,
/// inside-quotes flag, escape flag, current token, tokens so far.
pub open spec fn split_values_rec(
    s: Seq<char>,
    i: int,
    in_quotes: bool,
    escape: bool,
    cur: Seq<char>,
    acc: Seq<Seq<char>>,
) -> Seq<Seq<char>>
    decreases s.len() - i,
{
    if !(0 <= i < s.len()) {
        if trim_spec(cur).len() > 0 {
            acc.push(trim_spec(cur))
        } else {
            acc
        }
    } else {
        let c = s[i];
        if escape {
            split_values_rec(s, i + 1, in_quotes, false, cur.push(c), acc)
        } else if c == '\'' {
            split_values_rec(s, i + 1, !in_quotes, false, cur.push(c), acc)
        } else if c == '\\' {
            split_values_rec(s, i + 1, in_quotes, true, cur.push(c), acc)
        } else if c == ',' && !in_quotes {
            split_values_rec(s, i + 1, in_quotes, false, Seq::empty(), acc.push(trim_spec(cur)))
        } else {
            split_values_rec(s, i + 1, in_quotes, false, cur.push(c), acc)
        }
    }
}

/// The tokens of a raw value-list text.
pub open spec fn split_values_spec(s: Seq<char>) -> Seq<Seq<char>> {
    split_values_rec(s, 0, false, false, Seq::empty(), Seq::empty())
}

} // verus!
