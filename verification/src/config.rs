use vstd::prelude::*;
use crate::text::{str_eq, string_from_chars, subrange_chars, to_chars};

verus! {

/// How the values of one column are treated: kept, replaced by a synthetic
/// value of a semantic category, partially masked, or overwritten with a
/// fixed literal.
#[derive(Debug, Clone, PartialEq)]
pub enum ColumnStrategy {
    FirstName,
    LastName,
    FullName,
    Email,
    Phone,
    Mask,
    Fixed(String),
    Keep,
}

/// Per-table settings: the strategy of each configured column.
/// Entries are searched front to back, so an entry added in front of an
/// older one with the same name shadows it.
#[derive(Debug, Clone)]
pub struct TableConfig {
    pub columns: Vec<(String, ColumnStrategy)>,
}

/// The whole configuration: the settings of each configured table, keyed by
/// the table name as it appears in the dump (possibly schema-qualified).
#[derive(Debug, Clone)]
pub struct AppConfig {
    pub tables: Vec<(String, TableConfig)>,
}

/// The strategy stored for a column name, if any: the first entry whose
/// name matches.
pub open spec fn lookup_column(cols: Seq<(String, ColumnStrategy)>, name: Seq<char>) -> Option<
    ColumnStrategy,
>
    decreases cols.len(),
{
    if cols.len() == 0 {
        None
    } else if cols[0].0@ == name {
        Some(cols[0].1)
    } else {
        lookup_column(cols.drop_first(), name)
    }
}

/// The table settings stored for a table name, if any: the first entry
/// whose name matches.
pub open spec fn lookup_table(tables: Seq<(String, TableConfig)>, name: Seq<char>) -> Option<
    TableConfig,
>
    decreases tables.len(),
{
    if tables.len() == 0 {
        None
    } else if tables[0].0@ == name {
        Some(tables[0].1)
    } else {
        lookup_table(tables.drop_first(), name)
    }
}

/// The index of the last `.` in the string, or `-1` if there is none.
pub open spec fn last_dot(s: Seq<char>) -> int
    decreases s.len(),
{
    if s.len() == 0 {
        -1
    } else if s.last() == '.' {
        s.len() - 1
    } else {
        last_dot(s.drop_last())
    }
}

/// The part of a (possibly schema-qualified) table name after its last
/// `.`; the whole name when it has no `.`.
pub open spec fn last_segment(s: Seq<char>) -> Seq<char> {
    s.subrange(last_dot(s) + 1, s.len() as int)
}

/// Two-tier table resolution: the full name first, then its unqualified
/// last segment. `None` means the table is untracked.
pub open spec fn resolve_table_spec(c: AppConfig, name: Seq<char>) -> Option<TableConfig> {
    match lookup_table(c.tables@, name) {
        Some(t) => Some(t),
        None => lookup_table(c.tables@, last_segment(name)),
    }
}

/// Column resolution within a resolved table: an absent column means
/// `Keep`.
pub open spec fn resolve_column_spec(t: TableConfig, name: Seq<char>) -> ColumnStrategy {
    match lookup_column(t.columns@, name) {
        Some(s) => s,
        None => ColumnStrategy::Keep,
    }
}

proof fn lemma_last_dot_at(s: Seq<char>, j: int)
    requires
        -1 <= j < s.len(),
        j >= 0 ==> s[j] == '.',
        forall|i: int| j < i < s.len() ==> s[i] != '.',
    ensures
        last_dot(s) == j,
    decreases s.len(),
{
    if s.len() == 0 {
    } else if s.last() == '.' {
        assert(j == s.len() - 1);
    } else {
        lemma_last_dot_at(s.drop_last(), j);
    }
}

proof fn lemma_last_dot_bounds(s: Seq<char>)
    ensures
        -1 <= last_dot(s) < s.len(),
    decreases s.len(),
{
    if s.len() > 0 && s.last() != '.' {
        lemma_last_dot_bounds(s.drop_last());
    }
}

impl TableConfig {
    /// A configuration with no columns: every column resolves to `Keep`.
    pub fn new() -> (r: TableConfig)
        ensures
            r.columns@.len() == 0,
    {
        TableConfig { columns: Vec::new() }
    }

    /// Adds a strategy for a column, shadowing any earlier entry with the
    /// same name.
    pub fn set(&mut self, name: String, strategy: ColumnStrategy)
        ensures
            final(self).columns@ == old(self).columns@.insert(0, (name, strategy)),
    {
        self.columns.insert(0, (name, strategy));
    }

    /// The strategy stored for the column, if any.
    pub fn get(&self, name: &str) -> (r: Option<&ColumnStrategy>)
        ensures
            match r {
                Some(s) => lookup_column(self.columns@, name@) == Some(*s),
                None => lookup_column(self.columns@, name@) is None,
            },
    {
        let n: usize = self.columns.len();
        let mut i: usize = 0;
        proof {
            assert(self.columns@.skip(0) =~= self.columns@);
        }
        while i < n
            invariant
                n == self.columns@.len(),
                i <= n,
                lookup_column(self.columns@, name@) == lookup_column(
                    self.columns@.skip(i as int),
                    name@,
                ),
            decreases n - i,
        {
            let entry = &self.columns[i];
            proof {
                assert(self.columns@.skip(i as int)[0] == self.columns@[i as int]);
            }
            if str_eq(entry.0.as_str(), name) {
                return Some(&entry.1);
            }
            proof {
                assert(self.columns@.skip(i as int).drop_first() =~= self.columns@.skip(
                    i as int + 1,
                ));
            }
            i = i + 1;
        }
        None
    }

    /// The strategy that applies to the column: the stored one, `Keep`
    /// otherwise.
    pub fn resolve(&self, name: &str) -> (r: ColumnStrategy)
        ensures
            r == resolve_column_spec(*self, name@),
    {
        match self.get(name) {
            Some(s) => s.clone_strategy(),
            None => ColumnStrategy::Keep,
        }
    }
}

impl ColumnStrategy {
    /// A structural copy; the payload of `Fixed` is copied character for
    /// character.
    pub fn clone_strategy(&self) -> (r: ColumnStrategy)
        ensures
            r == *self,
    {
        match self {
            ColumnStrategy::FirstName => ColumnStrategy::FirstName,
            ColumnStrategy::LastName => ColumnStrategy::LastName,
            ColumnStrategy::FullName => ColumnStrategy::FullName,
            ColumnStrategy::Email => ColumnStrategy::Email,
            ColumnStrategy::Phone => ColumnStrategy::Phone,
            ColumnStrategy::Mask => ColumnStrategy::Mask,
            ColumnStrategy::Fixed(s) => ColumnStrategy::Fixed(s.clone()),
            ColumnStrategy::Keep => ColumnStrategy::Keep,
        }
    }
}

impl AppConfig {
    /// A configuration that tracks no table.
    pub fn new() -> (r: AppConfig)
        ensures
            r.tables@.len() == 0,
    {
        AppConfig { tables: Vec::new() }
    }

    /// Adds the settings of a table, shadowing any earlier entry with the
    /// same name.
    pub fn set(&mut self, name: String, table: TableConfig)
        ensures
            final(self).tables@ == old(self).tables@.insert(0, (name, table)),
    {
        self.tables.insert(0, (name, table));
    }

    /// The settings stored under exactly this name, if any.
    fn find_exact(&self, name: &str) -> (r: Option<&TableConfig>)
        ensures
            match r {
                Some(t) => lookup_table(self.tables@, name@) == Some(*t),
                None => lookup_table(self.tables@, name@) is None,
            },
    {
        let n: usize = self.tables.len();
        let mut i: usize = 0;
        proof {
            assert(self.tables@.skip(0) =~= self.tables@);
        }
        while i < n
            invariant
                n == self.tables@.len(),
                i <= n,
                lookup_table(self.tables@, name@) == lookup_table(
                    self.tables@.skip(i as int),
                    name@,
                ),
            decreases n - i,
        {
            let entry = &self.tables[i];
            proof {
                assert(self.tables@.skip(i as int)[0] == self.tables@[i as int]);
            }
            if str_eq(entry.0.as_str(), name) {
                return Some(&entry.1);
            }
            proof {
                assert(self.tables@.skip(i as int).drop_first() =~= self.tables@.skip(
                    i as int + 1,
                ));
            }
            i = i + 1;
        }
        None
    }

    /// Resolves a table name: exact match first, then the unqualified last
    /// segment. `None` means the statement passes through untouched.
    pub fn resolve_table(&self, name: &str) -> (r: Option<&TableConfig>)
        ensures
            match r {
                Some(t) => resolve_table_spec(*self, name@) == Some(*t),
                None => resolve_table_spec(*self, name@) is None,
            },
    {
        if let Some(t) = self.find_exact(name) {
            return Some(t);
        }
        let cs = to_chars(name);
        let n: usize = cs.len();
        let mut j: usize = n;
        while j > 0 && cs[j - 1] != '.'
            invariant
                j <= n,
                n == cs@.len(),
                cs@ == name@,
                forall|i: int| j <= i < n ==> cs@[i] != '.',
            decreases j,
        {
            j = j - 1;
        }
        proof {
            lemma_last_dot_at(name@, j - 1);
        }
        let suffix_chars = subrange_chars(&cs, j, n);
        let suffix = string_from_chars(&suffix_chars);
        proof {
            assert(suffix@ == last_segment(name@));
        }
        self.find_exact(suffix.as_str())
    }
}

} // verus!
