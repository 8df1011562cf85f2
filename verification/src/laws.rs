use vstd::prelude::*;
use crate::config::{resolve_column_spec, resolve_table_spec, AppConfig, ColumnStrategy,
    TableConfig};
use crate::matcher::match_insert_spec;
use crate::pipeline::{process_line_spec, split_columns_spec};
use crate::transformer::{count_from, find_from, is_quoted, lemma_find_found, mask_spec,
    split_values_spec, transform_spec};

verus! {

/// Determinism: the generator's result is pinned to a function of the
/// original value, the strategy and the global seed alone, so repeated
/// invocations and repeated runs agree.
pub proof fn lemma_generate_deterministic(
    r1: Seq<char>,
    r2: Seq<char>,
    v: Seq<char>,
    s: ColumnStrategy,
    k: u64,
)
    requires
        r1 == transform_spec(v, s, k),
        r2 == transform_spec(v, s, k),
    ensures
        r1 == r2,
{
}

/// Keep is identity: under `Keep` every token comes back unchanged,
/// quoting included.
pub proof fn lemma_keep_identity(v: Seq<char>, k: u64)
    ensures
        transform_spec(v, ColumnStrategy::Keep, k) == v,
{
}

/// Cross-column consistency: the substitute does not depend on which table
/// or column a value stood in; two columns whose strategies resolve to the
/// same strategy map the same literal to the same substitute under the
/// same seed.
pub proof fn lemma_cross_column_consistency(
    v: Seq<char>,
    t1: TableConfig,
    c1: Seq<char>,
    t2: TableConfig,
    c2: Seq<char>,
    k: u64,
)
    requires
        resolve_column_spec(t1, c1) == resolve_column_spec(t2, c2),
    ensures
        transform_spec(v, resolve_column_spec(t1, c1), k) == transform_spec(
            v,
            resolve_column_spec(t2, c2),
            k,
        ),
{
}

/// Quote preservation, quoted direction: for a token wrapped in single
/// quotes, every strategy but `Keep` produces a result that starts and
/// ends with a single quote.
pub proof fn lemma_quote_preservation_quoted(v: Seq<char>, s: ColumnStrategy, k: u64)
    requires
        is_quoted(v),
        !(s matches ColumnStrategy::Keep),
    ensures
        transform_spec(v, s, k).len() >= 2,
        transform_spec(v, s, k)[0] == '\'',
        transform_spec(v, s, k)[transform_spec(v, s, k).len() - 1] == '\'',
{
}

/// Quote preservation, unquoted direction for `Mask`: a token without
/// surrounding single quotes is masked into a token without surrounding
/// single quotes. (`Fixed` can break this when its payload itself is
/// quoted, and the synthetic categories leave it to the outside
/// generator, so only `Mask` states it.)
pub proof fn lemma_quote_preservation_unquoted_mask(v: Seq<char>, k: u64)
    requires
        !is_quoted(v),
    ensures
        !is_quoted(transform_spec(v, ColumnStrategy::Mask, k)),
{
    let r = transform_spec(v, ColumnStrategy::Mask, k);
    assert(r == mask_spec(v));
    let cnt = count_from(v, 0, '@');
    if cnt == 1 {
        lemma_find_found(v, 0, '@');
        let f = find_from(v, 0, '@');
        let local = v.subrange(0, f);
        let domain = v.subrange(f + 1, v.len() as int);
        if is_quoted(r) {
            if domain.len() == 0 {
                assert(r[r.len() - 1] == '@');
                assert(false);
            }
            assert(r[r.len() - 1] == domain[domain.len() - 1]);
            assert(v[v.len() - 1] == '\'');
            if local.len() > 1 {
                assert(r[0] == local[0]);
                assert(v[0] == '\'');
                assert(is_quoted(v));
            } else {
                assert(r[0] == '*');
            }
            assert(false);
        }
    } else if cnt == 0 {
        assert(r[r.len() - 1] == '*');
    } else {
        assert(r[0] == '*');
    }
}

/// Passthrough idempotence: a line that is no single-line `INSERT ...
/// VALUES (...);` statement is emitted unchanged and never counted as
/// anonymized.
pub proof fn lemma_passthrough(config: AppConfig, seed: u64, line: Seq<char>)
    requires
        match_insert_spec(line) is None,
    ensures
        process_line_spec(config, seed, line).0 == line,
        !process_line_spec(config, seed, line).1,
{
}

/// Untracked tables pass through: a matching statement whose table neither
/// resolves exactly nor by its unqualified name is emitted unchanged.
pub proof fn lemma_untracked_passthrough(
    config: AppConfig,
    seed: u64,
    line: Seq<char>,
    t: Seq<char>,
    c: Seq<char>,
    v: Seq<char>,
)
    requires
        match_insert_spec(line) == Some((t, c, v)),
        resolve_table_spec(config, t) is None,
    ensures
        process_line_spec(config, seed, line).0 == line,
        !process_line_spec(config, seed, line).1,
{
}

/// Mismatch safety: a tracked statement whose column count and value count
/// differ is emitted unchanged, and the anonymized counter does not move.
pub proof fn lemma_mismatch_safety(
    config: AppConfig,
    seed: u64,
    line: Seq<char>,
    t: Seq<char>,
    c: Seq<char>,
    v: Seq<char>,
    tc: TableConfig,
)
    requires
        match_insert_spec(line) == Some((t, c, v)),
        resolve_table_spec(config, t) == Some(tc),
        split_columns_spec(c).len() != split_values_spec(v).len(),
    ensures
        process_line_spec(config, seed, line).0 == line,
        !process_line_spec(config, seed, line).1,
{
}

} // verus!
