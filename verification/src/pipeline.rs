use vstd::prelude::*;
use vstd::string::StringExecFns;
use crate::config::{resolve_column_spec, resolve_table_spec, AppConfig, TableConfig};
use crate::matcher::{match_insert, match_insert_spec};
use crate::text::{join_comma_space, join_spec, string_from_chars, subrange_chars, to_chars,
    trim_chars, trim_spec};
use crate::transformer::{split_values_spec, transform_spec, Transformer};

verus! {

/// A column-name token without its leading double quotes.
pub open spec fn trim_dq_start(s: Seq<char>) -> Seq<char>
    decreases s.len(),
{
    if s.len() > 0 && s[0] == '"' {
        trim_dq_start(s.drop_first())
    } else {
        s
    }
}

/// A column-name token without its trailing double quotes.
pub open spec fn trim_dq_end(s: Seq<char>) -> Seq<char>
    decreases s.len(),
{
    if s.len() > 0 && s.last() == '"' {
        trim_dq_end(s.drop_last())
    } else {
        s
    }
}

/// A raw column-name token made comparable: whitespace trimmed, then the
/// surrounding double quotes stripped.
pub open spec fn clean_col(s: Seq<char>) -> Seq<char> {
    trim_dq_end(trim_dq_start(trim_spec(s)))
}

/// The column names of a raw column-list fragment: split on every comma,
/// each token cleaned. The token after the last comma is always emitted,
/// even when empty.
pub open spec fn split_cols_rec(s: Seq<char>, i: int, cur: Seq<char>, acc: Seq<Seq<char>>) -> Seq<
    Seq<char>,
>
    decreases s.len() - i,
{
    if !(0 <= i < s.len()) {
        acc.push(clean_col(cur))
    } else if s[i] == ',' {
        split_cols_rec(s, i + 1, Seq::empty(), acc.push(clean_col(cur)))
    } else {
        split_cols_rec(s, i + 1, cur.push(s[i]), acc)
    }
}

pub open spec fn split_columns_spec(s: Seq<char>) -> Seq<Seq<char>> {
    split_cols_rec(s, 0, Seq::empty(), Seq::empty())
}

proof fn lemma_dq_start_at(s: Seq<char>, k: int)
    requires
        0 <= k <= s.len(),
        forall|i: int| 0 <= i < k ==> s[i] == '"',
        k < s.len() ==> s[k] != '"',
    ensures
        trim_dq_start(s) == s.subrange(k, s.len() as int),
    decreases k,
{
    if k == 0 {
        assert(s.subrange(0, s.len() as int) =~= s);
    } else {
        lemma_dq_start_at(s.drop_first(), k - 1);
        assert(s.drop_first().subrange(k - 1, s.drop_first().len() as int) =~= s.subrange(
            k,
            s.len() as int,
        ));
    }
}

proof fn lemma_dq_end_at(s: Seq<char>, k: int)
    requires
        0 <= k <= s.len(),
        forall|i: int| k <= i < s.len() ==> s[i] == '"',
        k > 0 ==> s[k - 1] != '"',
    ensures
        trim_dq_end(s) == s.subrange(0, k),
    decreases s.len() - k,
{
    if k == s.len() {
        assert(s.subrange(0, k) =~= s);
    } else {
        lemma_dq_end_at(s.drop_last(), k);
        assert(s.drop_last().subrange(0, k) =~= s.subrange(0, k));
    }
}

/// Cleans one raw column-name token.
fn clean_col_exec(cur: &Vec<char>) -> (r: Vec<char>)
    ensures
        r@ == clean_col(cur@),
{
    let t = trim_chars(cur);
    let n: usize = t.len();
    let mut lo: usize = 0;
    while lo < n && t[lo] == '"'
        invariant
            lo <= n,
            n == t@.len(),
            forall|i: int| 0 <= i < lo ==> t@[i] == '"',
        decreases n - lo,
    {
        lo = lo + 1;
    }
    proof {
        lemma_dq_start_at(t@, lo as int);
    }
    let ghost u = trim_dq_start(t@);
    let mut hi: usize = n;
    while hi > lo && t[hi - 1] == '"'
        invariant
            lo <= hi <= n,
            n == t@.len(),
            u == t@.subrange(lo as int, n as int),
            forall|i: int| hi <= i < n ==> t@[i] == '"',
        decreases hi,
    {
        hi = hi - 1;
    }
    proof {
        assert(forall|i: int| hi - lo <= i < u.len() ==> u[i] == '"');
        assert(hi - lo > 0 ==> u[hi - lo - 1] != '"');
        lemma_dq_end_at(u, hi - lo);
        assert(u.subrange(0, hi - lo) =~= t@.subrange(lo as int, hi as int));
    }
    subrange_chars(&t, lo, hi)
}

/// Splits a raw column-list fragment into cleaned column names.
pub fn split_columns(cols: &str) -> (r: Vec<String>)
    ensures
        r.deep_view() == split_columns_spec(cols@),
{
    let cs = to_chars(cols);
    let n: usize = cs.len();
    let mut result: Vec<String> = Vec::new();
    let mut cur: Vec<char> = Vec::new();
    let mut i: usize = 0;
    proof {
        assert(cur@ =~= Seq::<char>::empty());
        assert(result.deep_view() =~= Seq::<Seq<char>>::empty());
    }
    while i < n
        invariant
            i <= n,
            n == cs@.len(),
            cs@ == cols@,
            split_cols_rec(cs@, i as int, cur@, result.deep_view()) == split_columns_spec(cs@),
        decreases n - i,
    {
        let ghost prev_dv = result.deep_view();
        let c = cs[i];
        if c == ',' {
            let token = string_from_chars(&clean_col_exec(&cur));
            result.push(token);
            cur = Vec::new();
            proof {
                assert(result.deep_view() =~= prev_dv.push(token@));
            }
        } else {
            cur.push(c);
        }
        i = i + 1;
    }
    let ghost prev_dv = result.deep_view();
    let token = string_from_chars(&clean_col_exec(&cur));
    result.push(token);
    proof {
        assert(result.deep_view() =~= prev_dv.push(token@));
    }
    result
}

pub open spec fn lit_insert_into() -> Seq<char> {
    seq!['I', 'N', 'S', 'E', 'R', 'T', ' ', 'I', 'N', 'T', 'O', ' ']
}

pub open spec fn lit_open() -> Seq<char> {
    seq![' ', '(']
}

pub open spec fn lit_values_open() -> Seq<char> {
    seq![')', ' ', 'V', 'A', 'L', 'U', 'E', 'S', ' ', '(']
}

pub open spec fn lit_close() -> Seq<char> {
    seq![')', ';']
}

/// The substitutes of one aligned statement: each value token transformed
/// under the strategy its column resolves to.
pub open spec fn transformed_values(
    tc: TableConfig,
    cols: Seq<Seq<char>>,
    vals: Seq<Seq<char>>,
    seed: u64,
) -> Seq<Seq<char>> {
    Seq::new(vals.len(), |i: int| transform_spec(vals[i], resolve_column_spec(tc, cols[i]), seed))
}

/// What the pipeline emits for one input line, and whether the line counts
/// as anonymized. A line that is no single-line `INSERT`, targets an
/// untracked table, or whose column and value counts differ is emitted
/// unchanged; otherwise only the value list is rewritten.
pub open spec fn process_line_spec(config: AppConfig, seed: u64, line: Seq<char>) -> (Seq<char>, bool) {
    match match_insert_spec(line) {
        None => (line, false),
        Some((t, c, v)) => match resolve_table_spec(config, t) {
            None => (line, false),
            Some(tc) => {
                let cols = split_columns_spec(c);
                let vals = split_values_spec(v);
                if cols.len() != vals.len() {
                    (line, false)
                } else {
                    (
                        lit_insert_into() + t + lit_open() + c + lit_values_open() + join_spec(
                            transformed_values(tc, cols, vals, seed),
                        ) + lit_close(),
                        true,
                    )
                }
            },
        },
    }
}

/// The per-line transformation pipeline: holds the configuration, the
/// deterministic generator, and the running counters of one invocation.
pub struct Pipeline {
    pub transformer: Transformer,
    pub config: AppConfig,
    pub processed_lines: u64,
    pub anonymized_count: u64,
}

impl Pipeline {
    pub fn new(config: AppConfig, seed: u64) -> (r: Pipeline)
        ensures
            r.config == config,
            r.transformer.global_seed == seed,
            r.processed_lines == 0,
            r.anonymized_count == 0,
    {
        Pipeline {
            transformer: Transformer::new(seed),
            config,
            processed_lines: 0,
            anonymized_count: 0,
        }
    }

    /// Processes one input line: emits the rewritten statement when the
    /// line matches, is tracked and aligns, and the line itself otherwise;
    /// counts every line, and counts an anonymized statement exactly when
    /// the rewrite happened.
    pub fn process_line(&mut self, line: &str) -> (out: String)
        requires
            old(self).processed_lines < u64::MAX,
            old(self).anonymized_count < u64::MAX,
        ensures
            final(self).config == old(self).config,
            final(self).transformer == old(self).transformer,
            final(self).processed_lines == old(self).processed_lines + 1,
            out@ == process_line_spec(
                old(self).config,
                old(self).transformer.global_seed,
                line@,
            ).0,
            final(self).anonymized_count == old(self).anonymized_count + (
            if process_line_spec(old(self).config, old(self).transformer.global_seed, line@).1 {
                1int
            } else {
                0int
            }),
    {
        let ghost seed = self.transformer.global_seed;
        let (out, rewritten): (String, bool) = match match_insert(line) {
            None => (line.to_owned(), false),
            Some((t, c, v)) => {
                match self.config.resolve_table(t.as_str()) {
                    None => (line.to_owned(), false),
                    Some(tc) => {
                        let columns = split_columns(c.as_str());
                        let values = Transformer::parse_values(v.as_str());
                        if columns.len() != values.len() {
                            (line.to_owned(), false)
                        } else {
                            let ghost cols = columns.deep_view();
                            let ghost vals = values.deep_view();
                            let n: usize = values.len();
                            let mut new_values: Vec<String> = Vec::new();
                            let mut i: usize = 0;
                            proof {
                                assert(new_values.deep_view() =~= transformed_values(
                                    *tc,
                                    cols,
                                    vals,
                                    seed,
                                ).subrange(0, 0));
                            }
                            while i < n
                                invariant
                                    i <= n,
                                    n == columns@.len() == values@.len(),
                                    cols == columns.deep_view(),
                                    vals == values.deep_view(),
                                    seed == self.transformer.global_seed,
                                    new_values.deep_view() == transformed_values(
                                        *tc,
                                        cols,
                                        vals,
                                        seed,
                                    ).subrange(0, i as int),
                                decreases n - i,
                            {
                                let ghost prev_dv = new_values.deep_view();
                                let strategy = tc.resolve(columns[i].as_str());
                                let nv = self.transformer.transform(values[i].as_str(), &strategy);
                                new_values.push(nv);
                                i = i + 1;
                                proof {
                                    assert(columns@[i - 1]@ == cols[i - 1]);
                                    assert(values@[i - 1]@ == vals[i - 1]);
                                    assert(new_values.deep_view() =~= prev_dv.push(nv@));
                                    assert(new_values.deep_view() =~= transformed_values(
                                        *tc,
                                        cols,
                                        vals,
                                        seed,
                                    ).subrange(0, i as int));
                                }
                            }
                            proof {
                                assert(transformed_values(*tc, cols, vals, seed).subrange(
                                    0,
                                    n as int,
                                ) =~= transformed_values(*tc, cols, vals, seed));
                            }
                            let joined = join_comma_space(&new_values);
                            let mut w: String = String::new();
                            w.append("INSERT INTO ");
                            w.append(t.as_str());
                            w.append(" (");
                            w.append(c.as_str());
                            w.append(") VALUES (");
                            w.append(joined.as_str());
                            w.append(");");
                            proof {
                                reveal_strlit("INSERT INTO ");
                                reveal_strlit(" (");
                                reveal_strlit(") VALUES (");
                                reveal_strlit(");");
                                assert(("INSERT INTO ")@ =~= lit_insert_into());
                                assert((" (")@ =~= lit_open());
                                assert((") VALUES (")@ =~= lit_values_open());
                                assert((");")@ =~= lit_close());
                                assert(w@ =~= process_line_spec(self.config, seed, line@).0);
                            }
                            (w, true)
                        }
                    },
                }
            },
        };
        self.processed_lines = self.processed_lines + 1;
        if rewritten {
            self.anonymized_count = self.anonymized_count + 1;
        }
        out
    }
}

} // verus!
