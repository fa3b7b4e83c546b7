//! Compiled allow/exclude filters over the four rule dimensions, and the
//! allow-then-exclude decision procedure.

use vstd::prelude::*;

use crate::config::{GlobalFilters, SqlFilterRules};
use crate::errors::InvalidPattern;
use crate::patterns::{pattern_matches, pattern_valid, CompiledPattern};
use crate::text::string_views;

verus! {

/// The four dimensions a rule block can constrain.
pub enum Dimension {
    Database,
    Table,
    ColumnName,
    ColumnValue,
}

/// The patterns an optional list contributes: none when absent.
pub open spec fn opt_patterns(o: Option<Vec<String>>) -> Seq<Seq<char>> {
    match o {
        Option::None => Seq::empty(),
        Option::Some(v) => string_views(v@),
    }
}

/// The patterns one rule block contributes to one dimension.
pub open spec fn block_patterns(rules: SqlFilterRules, dim: Dimension) -> Seq<Seq<char>> {
    match dim {
        Dimension::Database => opt_patterns(rules.database_regexes),
        Dimension::Table => opt_patterns(rules.table_regexes),
        Dimension::ColumnName => opt_patterns(rules.column_name_regexes),
        Dimension::ColumnValue => opt_patterns(rules.column_value_regexes),
    }
}

/// All patterns a list of rule blocks contributes to one dimension, flattened
/// in block order.
pub open spec fn flat_patterns(blocks: Seq<SqlFilterRules>, dim: Dimension) -> Seq<Seq<char>>
    decreases blocks.len(),
{
    if blocks.len() == 0 {
        Seq::empty()
    } else {
        flat_patterns(blocks.drop_last(), dim) + block_patterns(blocks.last(), dim)
    }
}

/// Every pattern in the list is a valid regular expression.
pub open spec fn patterns_valid(patterns: Seq<Seq<char>>) -> bool {
    forall|i: int| 0 <= i < patterns.len() ==> pattern_valid(#[trigger] patterns[i])
}

/// Whether some dimension of the rule block holds the pattern.
pub open spec fn block_contains(rules: SqlFilterRules, p: Seq<char>) -> bool {
    ||| block_patterns(rules, Dimension::Database).contains(p)
    ||| block_patterns(rules, Dimension::Table).contains(p)
    ||| block_patterns(rules, Dimension::ColumnName).contains(p)
    ||| block_patterns(rules, Dimension::ColumnValue).contains(p)
}

/// Every pattern of one rule block, over all four dimensions, is valid.
pub open spec fn block_valid(rules: SqlFilterRules) -> bool {
    &&& patterns_valid(block_patterns(rules, Dimension::Database))
    &&& patterns_valid(block_patterns(rules, Dimension::Table))
    &&& patterns_valid(block_patterns(rules, Dimension::ColumnName))
    &&& patterns_valid(block_patterns(rules, Dimension::ColumnValue))
}

/// The exclude rule blocks of a configuration, flattened out of the options.
pub open spec fn exclude_blocks(gf: Option<&GlobalFilters>) -> Seq<SqlFilterRules> {
    match gf {
        Option::None => Seq::empty(),
        Option::Some(g) => match g.sql_filters_exclude {
            Option::None => Seq::empty(),
            Option::Some(v) => v@,
        },
    }
}

/// The allow rule blocks of a configuration.
pub open spec fn allow_blocks(gf: Option<&GlobalFilters>) -> Seq<SqlFilterRules> {
    match gf {
        Option::None => Seq::empty(),
        Option::Some(g) => match g.sql_filters_allow {
            Option::None => Seq::empty(),
            Option::Some(v) => v@,
        },
    }
}

/// Every pattern of the configuration, in either direction and any dimension,
/// is a valid regular expression: exactly when compilation succeeds.
pub open spec fn global_valid(gf: Option<&GlobalFilters>) -> bool {
    &&& patterns_valid(flat_patterns(exclude_blocks(gf), Dimension::Database))
    &&& patterns_valid(flat_patterns(exclude_blocks(gf), Dimension::Table))
    &&& patterns_valid(flat_patterns(exclude_blocks(gf), Dimension::ColumnName))
    &&& patterns_valid(flat_patterns(exclude_blocks(gf), Dimension::ColumnValue))
    &&& patterns_valid(flat_patterns(allow_blocks(gf), Dimension::Database))
    &&& patterns_valid(flat_patterns(allow_blocks(gf), Dimension::Table))
    &&& patterns_valid(flat_patterns(allow_blocks(gf), Dimension::ColumnName))
    &&& patterns_valid(flat_patterns(allow_blocks(gf), Dimension::ColumnValue))
}

/// What a configuration compiles to: one pattern list per direction and
/// dimension, each the union of all blocks in block order.
pub open spec fn compiled_view(gf: Option<&GlobalFilters>) -> SqlFiltersView {
    SqlFiltersView {
        exclude_database: flat_patterns(exclude_blocks(gf), Dimension::Database),
        exclude_table: flat_patterns(exclude_blocks(gf), Dimension::Table),
        exclude_column_name: flat_patterns(exclude_blocks(gf), Dimension::ColumnName),
        exclude_column_value: flat_patterns(exclude_blocks(gf), Dimension::ColumnValue),
        allow_database: flat_patterns(allow_blocks(gf), Dimension::Database),
        allow_table: flat_patterns(allow_blocks(gf), Dimension::Table),
        allow_column_name: flat_patterns(allow_blocks(gf), Dimension::ColumnName),
        allow_column_value: flat_patterns(allow_blocks(gf), Dimension::ColumnValue),
    }
}

/// Every pattern the configuration holds, in either direction and any
/// dimension.
pub open spec fn configured_patterns(gf: Option<&GlobalFilters>) -> Seq<Seq<char>> {
    flat_patterns(exclude_blocks(gf), Dimension::Database) + flat_patterns(
        exclude_blocks(gf),
        Dimension::Table,
    ) + flat_patterns(exclude_blocks(gf), Dimension::ColumnName) + flat_patterns(
        exclude_blocks(gf),
        Dimension::ColumnValue,
    ) + flat_patterns(allow_blocks(gf), Dimension::Database) + flat_patterns(
        allow_blocks(gf),
        Dimension::Table,
    ) + flat_patterns(allow_blocks(gf), Dimension::ColumnName) + flat_patterns(
        allow_blocks(gf),
        Dimension::ColumnValue,
    )
}

/// Whether any pattern in the set matches the candidate anywhere.
pub open spec fn matches_any(patterns: Seq<Seq<char>>, candidate: Seq<char>) -> bool {
    exists|i: int| 0 <= i < patterns.len() && pattern_matches(#[trigger] patterns[i], candidate)
}

/// The decision for one dimension, with allow-then-exclude precedence: a
/// non-empty allow set is closed-world (no allow match means excluded);
/// otherwise any exclude match excludes.
pub open spec fn spec_should_exclude(
    allow: Seq<Seq<char>>,
    exclude: Seq<Seq<char>>,
    candidate: Seq<char>,
) -> bool {
    if allow.len() > 0 && !matches_any(allow, candidate) {
        true
    } else {
        matches_any(exclude, candidate)
    }
}

/// Law: with an empty allow set, the decision depends on the exclude set
/// alone (open-world default).
pub proof fn lemma_empty_allow_open_world(
    allow: Seq<Seq<char>>,
    exclude: Seq<Seq<char>>,
    candidate: Seq<char>,
)
    requires
        allow.len() == 0,
    ensures
        spec_should_exclude(allow, exclude, candidate) == matches_any(exclude, candidate),
{
}

/// Law: a candidate that matches none of a non-empty allow set is excluded,
/// whatever the exclude set holds.
pub proof fn lemma_unmatched_allow_excludes(
    allow: Seq<Seq<char>>,
    exclude: Seq<Seq<char>>,
    candidate: Seq<char>,
)
    requires
        allow.len() > 0,
        !matches_any(allow, candidate),
    ensures
        spec_should_exclude(allow, exclude, candidate),
{
}

/// The mathematical content of a compiled [`SqlFilters`]: the pattern
/// strings it holds, per direction and dimension.
#[verifier::ext_equal]
pub struct SqlFiltersView {
    pub exclude_database: Seq<Seq<char>>,
    pub exclude_table: Seq<Seq<char>>,
    pub exclude_column_name: Seq<Seq<char>>,
    pub exclude_column_value: Seq<Seq<char>>,
    pub allow_database: Seq<Seq<char>>,
    pub allow_table: Seq<Seq<char>>,
    pub allow_column_name: Seq<Seq<char>>,
    pub allow_column_value: Seq<Seq<char>>,
}

/// The pattern strings of a list of compiled patterns.
pub(crate) open spec fn views_of(ps: Seq<CompiledPattern>) -> Seq<Seq<char>> {
    ps.map_values(|p: CompiledPattern| p@)
}

/// Compiled allow and exclude matchers for the four dimensions. Immutable
/// after construction.
#[derive(Debug)]
pub struct SqlFilters {
    exclude_database_patterns: Vec<CompiledPattern>,
    exclude_table_patterns: Vec<CompiledPattern>,
    exclude_column_name_patterns: Vec<CompiledPattern>,
    exclude_column_value_patterns: Vec<CompiledPattern>,
    allow_database_patterns: Vec<CompiledPattern>,
    allow_table_patterns: Vec<CompiledPattern>,
    allow_column_name_patterns: Vec<CompiledPattern>,
    allow_column_value_patterns: Vec<CompiledPattern>,
}

impl View for SqlFilters {
    type V = SqlFiltersView;

    closed spec fn view(&self) -> SqlFiltersView {
        SqlFiltersView {
            exclude_database: views_of(self.exclude_database_patterns@),
            exclude_table: views_of(self.exclude_table_patterns@),
            exclude_column_name: views_of(self.exclude_column_name_patterns@),
            exclude_column_value: views_of(self.exclude_column_value_patterns@),
            allow_database: views_of(self.allow_database_patterns@),
            allow_table: views_of(self.allow_table_patterns@),
            allow_column_name: views_of(self.allow_column_name_patterns@),
            allow_column_value: views_of(self.allow_column_value_patterns@),
        }
    }
}

/// Compiles one optional pattern list, failing on the first invalid pattern.
fn compile_list(patterns: &Option<Vec<String>>) -> (r: Result<Vec<CompiledPattern>, InvalidPattern>)
    ensures
        r is Ok <==> patterns_valid(opt_patterns(*patterns)),
        r is Ok ==> views_of(r->Ok_0@) == opt_patterns(*patterns),
        r is Err ==> !pattern_valid(r->Err_0.pattern@) && opt_patterns(*patterns).contains(
            r->Err_0.pattern@,
        ),
{
    match patterns {
        Option::None => Ok(Vec::new()),
        Option::Some(ps) => {
            let mut out: Vec<CompiledPattern> = Vec::new();
            let mut i: usize = 0;
            while i < ps.len()
                invariant
                    i <= ps@.len(),
                    *patterns == Option::Some(*ps),
                    views_of(out@) == string_views(ps@.take(i as int)),
                    forall|j: int| 0 <= j < i ==> pattern_valid(#[trigger] ps@[j]@),
                decreases ps@.len() - i,
            {
                let pattern = &ps[i];
                match CompiledPattern::compile(pattern.as_str()) {
                    Ok(p) => {
                        let ghost prev_out = out@;
                        out.push(p);
                        proof {
                            assert(views_of(out@) =~= views_of(prev_out).push(p@));
                            assert(ps@.take(i as int + 1) =~= ps@.take(i as int).push(
                                ps@[i as int],
                            ));
                            assert(string_views(ps@.take(i as int).push(ps@[i as int])) =~=
                                string_views(ps@.take(i as int)).push(ps@[i as int]@));
                        }
                    },
                    Err(message) => {
                        proof {
                            assert(opt_patterns(*patterns)[i as int] == ps@[i as int]@);
                            assert(opt_patterns(*patterns).contains(ps@[i as int]@));
                        }
                        return Err(InvalidPattern { pattern: pattern.clone(), message });
                    },
                }
                i += 1;
            }
            proof {
                assert(views_of(out@) =~= opt_patterns(*patterns));
                assert forall|j: int| 0 <= j < opt_patterns(*patterns).len() implies pattern_valid(
                    #[trigger] opt_patterns(*patterns)[j],
                ) by {
                    assert(opt_patterns(*patterns)[j] == ps@[j]@);
                }
            }
            Ok(out)
        },
    }
}

/// Whether any compiled pattern in the list matches the candidate.
fn any_match(patterns: &Vec<CompiledPattern>, candidate: &str) -> (r: bool)
    ensures
        r == matches_any(views_of(patterns@), candidate@),
{
    let mut i: usize = 0;
    while i < patterns.len()
        invariant
            i <= patterns@.len(),
            forall|j: int| 0 <= j < i ==> !pattern_matches(#[trigger] views_of(patterns@)[j], candidate@),
        decreases patterns@.len() - i,
    {
        if patterns[i].is_match(candidate) {
            proof {
                assert(pattern_matches(views_of(patterns@)[i as int], candidate@));
            }
            return true;
        }
        i += 1;
    }
    false
}

impl SqlFilters {
    /// Compiles a configuration into one filter set, flattening all exclude
    /// blocks and all allow blocks. Fails, building no partial policy, exactly
    /// when some configured pattern is not a valid regular expression.
    pub fn new(global_filters: Option<&GlobalFilters>) -> (r: Result<SqlFilters, InvalidPattern>)
        ensures
            r is Ok <==> global_valid(global_filters),
            r is Ok ==> r->Ok_0@ == compiled_view(global_filters),
            r is Err ==> !pattern_valid(r->Err_0.pattern@) && configured_patterns(
                global_filters,
            ).contains(r->Err_0.pattern@),
    {
        let ghost ex_blocks = exclude_blocks(global_filters);
        let ghost al_blocks = allow_blocks(global_filters);
        let mut filters = SqlFilters {
            exclude_database_patterns: Vec::new(),
            exclude_table_patterns: Vec::new(),
            exclude_column_name_patterns: Vec::new(),
            exclude_column_value_patterns: Vec::new(),
            allow_database_patterns: Vec::new(),
            allow_table_patterns: Vec::new(),
            allow_column_name_patterns: Vec::new(),
            allow_column_value_patterns: Vec::new(),
        };

        if let Some(gf) = global_filters {
            if let Some(exclude_rules) = &gf.sql_filters_exclude {
                let mut i: usize = 0;
                while i < exclude_rules.len()
                    invariant
                        i <= exclude_rules@.len(),
                        ex_blocks == exclude_rules@,
                        ex_blocks == exclude_blocks(global_filters),
                        views_of(filters.exclude_database_patterns@) == flat_patterns(
                            ex_blocks.take(i as int),
                            Dimension::Database,
                        ),
                        views_of(filters.exclude_table_patterns@) == flat_patterns(
                            ex_blocks.take(i as int),
                            Dimension::Table,
                        ),
                        views_of(filters.exclude_column_name_patterns@) == flat_patterns(
                            ex_blocks.take(i as int),
                            Dimension::ColumnName,
                        ),
                        views_of(filters.exclude_column_value_patterns@) == flat_patterns(
                            ex_blocks.take(i as int),
                            Dimension::ColumnValue,
                        ),
                        patterns_valid(flat_patterns(ex_blocks.take(i as int), Dimension::Database)),
                        patterns_valid(flat_patterns(ex_blocks.take(i as int), Dimension::Table)),
                        patterns_valid(
                            flat_patterns(ex_blocks.take(i as int), Dimension::ColumnName),
                        ),
                        patterns_valid(
                            flat_patterns(ex_blocks.take(i as int), Dimension::ColumnValue),
                        ),
                        filters.allow_database_patterns@.len() == 0,
                        filters.allow_table_patterns@.len() == 0,
                        filters.allow_column_name_patterns@.len() == 0,
                        filters.allow_column_value_patterns@.len() == 0,
                    decreases exclude_rules@.len() - i,
                {
                    let rule = &exclude_rules[i];
                    match filters.add_exclude_patterns(rule) {
                        Ok(()) => {
                            proof {
                                lemma_flat_step(ex_blocks, Dimension::Database, i as int);
                                lemma_flat_step(ex_blocks, Dimension::Table, i as int);
                                lemma_flat_step(ex_blocks, Dimension::ColumnName, i as int);
                                lemma_flat_step(ex_blocks, Dimension::ColumnValue, i as int);
                                lemma_valid_split(
                                    flat_patterns(ex_blocks.take(i as int), Dimension::Database),
                                    block_patterns(ex_blocks[i as int], Dimension::Database),
                                );
                                lemma_valid_split(
                                    flat_patterns(ex_blocks.take(i as int), Dimension::Table),
                                    block_patterns(ex_blocks[i as int], Dimension::Table),
                                );
                                lemma_valid_split(
                                    flat_patterns(ex_blocks.take(i as int), Dimension::ColumnName),
                                    block_patterns(ex_blocks[i as int], Dimension::ColumnName),
                                );
                                lemma_valid_split(
                                    flat_patterns(ex_blocks.take(i as int), Dimension::ColumnValue),
                                    block_patterns(ex_blocks[i as int], Dimension::ColumnValue),
                                );
                            }
                        },
                        Err(e) => {
                            proof {
                                if global_valid(global_filters) {
                                    lemma_flat_block_valid(ex_blocks, Dimension::Database, i as int);
                                    lemma_flat_block_valid(ex_blocks, Dimension::Table, i as int);
                                    lemma_flat_block_valid(
                                        ex_blocks,
                                        Dimension::ColumnName,
                                        i as int,
                                    );
                                    lemma_flat_block_valid(
                                        ex_blocks,
                                        Dimension::ColumnValue,
                                        i as int,
                                    );
                                }
                                if block_patterns(ex_blocks[i as int], Dimension::Database)
                                    .contains(e.pattern@) {
                                    lemma_flat_contains(
                                        ex_blocks,
                                        Dimension::Database,
                                        i as int,
                                        e.pattern@,
                                    );
                                }
                                if block_patterns(ex_blocks[i as int], Dimension::Table).contains(
                                    e.pattern@,
                                ) {
                                    lemma_flat_contains(
                                        ex_blocks,
                                        Dimension::Table,
                                        i as int,
                                        e.pattern@,
                                    );
                                }
                                if block_patterns(ex_blocks[i as int], Dimension::ColumnName)
                                    .contains(e.pattern@) {
                                    lemma_flat_contains(
                                        ex_blocks,
                                        Dimension::ColumnName,
                                        i as int,
                                        e.pattern@,
                                    );
                                }
                                if block_patterns(ex_blocks[i as int], Dimension::ColumnValue)
                                    .contains(e.pattern@) {
                                    lemma_flat_contains(
                                        ex_blocks,
                                        Dimension::ColumnValue,
                                        i as int,
                                        e.pattern@,
                                    );
                                }
                                lemma_configured_from_part(global_filters, e.pattern@);
                            }
                            return Err(e);
                        },
                    }
                    i += 1;
                }
                proof {
                    assert(ex_blocks.take(exclude_rules@.len() as int) =~= ex_blocks);
                }
            }
            if let Some(allow_rules) = &gf.sql_filters_allow {
                let mut i: usize = 0;
                while i < allow_rules.len()
                    invariant
                        i <= allow_rules@.len(),
                        al_blocks == allow_rules@,
                        al_blocks == allow_blocks(global_filters),
                        ex_blocks == exclude_blocks(global_filters),
                        views_of(filters.exclude_database_patterns@) == flat_patterns(
                            ex_blocks,
                            Dimension::Database,
                        ),
                        views_of(filters.exclude_table_patterns@) == flat_patterns(
                            ex_blocks,
                            Dimension::Table,
                        ),
                        views_of(filters.exclude_column_name_patterns@) == flat_patterns(
                            ex_blocks,
                            Dimension::ColumnName,
                        ),
                        views_of(filters.exclude_column_value_patterns@) == flat_patterns(
                            ex_blocks,
                            Dimension::ColumnValue,
                        ),
                        patterns_valid(flat_patterns(ex_blocks, Dimension::Database)),
                        patterns_valid(flat_patterns(ex_blocks, Dimension::Table)),
                        patterns_valid(flat_patterns(ex_blocks, Dimension::ColumnName)),
                        patterns_valid(flat_patterns(ex_blocks, Dimension::ColumnValue)),
                        views_of(filters.allow_database_patterns@) == flat_patterns(
                            al_blocks.take(i as int),
                            Dimension::Database,
                        ),
                        views_of(filters.allow_table_patterns@) == flat_patterns(
                            al_blocks.take(i as int),
                            Dimension::Table,
                        ),
                        views_of(filters.allow_column_name_patterns@) == flat_patterns(
                            al_blocks.take(i as int),
                            Dimension::ColumnName,
                        ),
                        views_of(filters.allow_column_value_patterns@) == flat_patterns(
                            al_blocks.take(i as int),
                            Dimension::ColumnValue,
                        ),
                        patterns_valid(flat_patterns(al_blocks.take(i as int), Dimension::Database)),
                        patterns_valid(flat_patterns(al_blocks.take(i as int), Dimension::Table)),
                        patterns_valid(
                            flat_patterns(al_blocks.take(i as int), Dimension::ColumnName),
                        ),
                        patterns_valid(
                            flat_patterns(al_blocks.take(i as int), Dimension::ColumnValue),
                        ),
                    decreases allow_rules@.len() - i,
                {
                    let rule = &allow_rules[i];
                    match filters.add_allow_patterns(rule) {
                        Ok(()) => {
                            proof {
                                lemma_flat_step(al_blocks, Dimension::Database, i as int);
                                lemma_flat_step(al_blocks, Dimension::Table, i as int);
                                lemma_flat_step(al_blocks, Dimension::ColumnName, i as int);
                                lemma_flat_step(al_blocks, Dimension::ColumnValue, i as int);
                                lemma_valid_split(
                                    flat_patterns(al_blocks.take(i as int), Dimension::Database),
                                    block_patterns(al_blocks[i as int], Dimension::Database),
                                );
                                lemma_valid_split(
                                    flat_patterns(al_blocks.take(i as int), Dimension::Table),
                                    block_patterns(al_blocks[i as int], Dimension::Table),
                                );
                                lemma_valid_split(
                                    flat_patterns(al_blocks.take(i as int), Dimension::ColumnName),
                                    block_patterns(al_blocks[i as int], Dimension::ColumnName),
                                );
                                lemma_valid_split(
                                    flat_patterns(al_blocks.take(i as int), Dimension::ColumnValue),
                                    block_patterns(al_blocks[i as int], Dimension::ColumnValue),
                                );
                            }
                        },
                        Err(e) => {
                            proof {
                                if global_valid(global_filters) {
                                    lemma_flat_block_valid(al_blocks, Dimension::Database, i as int);
                                    lemma_flat_block_valid(al_blocks, Dimension::Table, i as int);
                                    lemma_flat_block_valid(
                                        al_blocks,
                                        Dimension::ColumnName,
                                        i as int,
                                    );
                                    lemma_flat_block_valid(
                                        al_blocks,
                                        Dimension::ColumnValue,
                                        i as int,
                                    );
                                }
                                if block_patterns(al_blocks[i as int], Dimension::Database)
                                    .contains(e.pattern@) {
                                    lemma_flat_contains(
                                        al_blocks,
                                        Dimension::Database,
                                        i as int,
                                        e.pattern@,
                                    );
                                }
                                if block_patterns(al_blocks[i as int], Dimension::Table).contains(
                                    e.pattern@,
                                ) {
                                    lemma_flat_contains(
                                        al_blocks,
                                        Dimension::Table,
                                        i as int,
                                        e.pattern@,
                                    );
                                }
                                if block_patterns(al_blocks[i as int], Dimension::ColumnName)
                                    .contains(e.pattern@) {
                                    lemma_flat_contains(
                                        al_blocks,
                                        Dimension::ColumnName,
                                        i as int,
                                        e.pattern@,
                                    );
                                }
                                if block_patterns(al_blocks[i as int], Dimension::ColumnValue)
                                    .contains(e.pattern@) {
                                    lemma_flat_contains(
                                        al_blocks,
                                        Dimension::ColumnValue,
                                        i as int,
                                        e.pattern@,
                                    );
                                }
                                lemma_configured_from_part(global_filters, e.pattern@);
                            }
                            return Err(e);
                        },
                    }
                    i += 1;
                }
                proof {
                    assert(al_blocks.take(allow_rules@.len() as int) =~= al_blocks);
                }
            }
        }
        proof {
            assert(filters@ =~= compiled_view(global_filters));
        }
        Ok(filters)
    }

    /// Adds one exclude rule block, compiling each of its pattern lists.
    fn add_exclude_patterns(&mut self, rules: &SqlFilterRules) -> (r: Result<(), InvalidPattern>)
        ensures
            r is Ok <==> block_valid(*rules),
            r is Ok ==> views_of(final(self).exclude_database_patterns@) == views_of(
                old(self).exclude_database_patterns@,
            ) + block_patterns(*rules, Dimension::Database),
            r is Ok ==> views_of(final(self).exclude_table_patterns@) == views_of(
                old(self).exclude_table_patterns@,
            ) + block_patterns(*rules, Dimension::Table),
            r is Ok ==> views_of(final(self).exclude_column_name_patterns@) == views_of(
                old(self).exclude_column_name_patterns@,
            ) + block_patterns(*rules, Dimension::ColumnName),
            r is Ok ==> views_of(final(self).exclude_column_value_patterns@) == views_of(
                old(self).exclude_column_value_patterns@,
            ) + block_patterns(*rules, Dimension::ColumnValue),
            final(self).allow_database_patterns == old(self).allow_database_patterns,
            final(self).allow_table_patterns == old(self).allow_table_patterns,
            final(self).allow_column_name_patterns == old(self).allow_column_name_patterns,
            final(self).allow_column_value_patterns == old(self).allow_column_value_patterns,
            r is Err ==> !pattern_valid(r->Err_0.pattern@) && block_contains(
                *rules,
                r->Err_0.pattern@,
            ),
    {
        let mut v = compile_list(&rules.database_regexes)?;
        self.exclude_database_patterns.append(&mut v);
        let mut v = compile_list(&rules.table_regexes)?;
        self.exclude_table_patterns.append(&mut v);
        let mut v = compile_list(&rules.column_name_regexes)?;
        self.exclude_column_name_patterns.append(&mut v);
        let mut v = compile_list(&rules.column_value_regexes)?;
        self.exclude_column_value_patterns.append(&mut v);
        proof {
            lemma_views_of_add(old(self).exclude_database_patterns@, self.exclude_database_patterns@);
            lemma_views_of_add(old(self).exclude_table_patterns@, self.exclude_table_patterns@);
            lemma_views_of_add(
                old(self).exclude_column_name_patterns@,
                self.exclude_column_name_patterns@,
            );
            lemma_views_of_add(
                old(self).exclude_column_value_patterns@,
                self.exclude_column_value_patterns@,
            );
        }
        Ok(())
    }

    /// Adds one allow rule block, compiling each of its pattern lists.
    fn add_allow_patterns(&mut self, rules: &SqlFilterRules) -> (r: Result<(), InvalidPattern>)
        ensures
            r is Ok <==> block_valid(*rules),
            r is Ok ==> views_of(final(self).allow_database_patterns@) == views_of(
                old(self).allow_database_patterns@,
            ) + block_patterns(*rules, Dimension::Database),
            r is Ok ==> views_of(final(self).allow_table_patterns@) == views_of(
                old(self).allow_table_patterns@,
            ) + block_patterns(*rules, Dimension::Table),
            r is Ok ==> views_of(final(self).allow_column_name_patterns@) == views_of(
                old(self).allow_column_name_patterns@,
            ) + block_patterns(*rules, Dimension::ColumnName),
            r is Ok ==> views_of(final(self).allow_column_value_patterns@) == views_of(
                old(self).allow_column_value_patterns@,
            ) + block_patterns(*rules, Dimension::ColumnValue),
            final(self).exclude_database_patterns == old(self).exclude_database_patterns,
            final(self).exclude_table_patterns == old(self).exclude_table_patterns,
            final(self).exclude_column_name_patterns == old(self).exclude_column_name_patterns,
            final(self).exclude_column_value_patterns == old(self).exclude_column_value_patterns,
            r is Err ==> !pattern_valid(r->Err_0.pattern@) && block_contains(
                *rules,
                r->Err_0.pattern@,
            ),
    {
        let mut v = compile_list(&rules.database_regexes)?;
        self.allow_database_patterns.append(&mut v);
        let mut v = compile_list(&rules.table_regexes)?;
        self.allow_table_patterns.append(&mut v);
        let mut v = compile_list(&rules.column_name_regexes)?;
        self.allow_column_name_patterns.append(&mut v);
        let mut v = compile_list(&rules.column_value_regexes)?;
        self.allow_column_value_patterns.append(&mut v);
        proof {
            lemma_views_of_add(old(self).allow_database_patterns@, self.allow_database_patterns@);
            lemma_views_of_add(old(self).allow_table_patterns@, self.allow_table_patterns@);
            lemma_views_of_add(
                old(self).allow_column_name_patterns@,
                self.allow_column_name_patterns@,
            );
            lemma_views_of_add(
                old(self).allow_column_value_patterns@,
                self.allow_column_value_patterns@,
            );
        }
        Ok(())
    }

    /// The database-dimension decision.
    pub fn should_exclude_database(&self, db_name: &str) -> (r: bool)
        ensures
            r == spec_should_exclude(self@.allow_database, self@.exclude_database, db_name@),
    {
        if self.allow_database_patterns.len() > 0 {
            let allowed = any_match(&self.allow_database_patterns, db_name);
            if !allowed {
                return true;
            }
        }
        any_match(&self.exclude_database_patterns, db_name)
    }

    /// The table-dimension decision.
    pub fn should_exclude_table(&self, table_name: &str) -> (r: bool)
        ensures
            r == spec_should_exclude(self@.allow_table, self@.exclude_table, table_name@),
    {
        if self.allow_table_patterns.len() > 0 {
            let allowed = any_match(&self.allow_table_patterns, table_name);
            if !allowed {
                return true;
            }
        }
        any_match(&self.exclude_table_patterns, table_name)
    }

    /// The column-name-dimension decision.
    pub fn should_exclude_column(&self, column_name: &str) -> (r: bool)
        ensures
            r == spec_should_exclude(
                self@.allow_column_name,
                self@.exclude_column_name,
                column_name@,
            ),
    {
        if self.allow_column_name_patterns.len() > 0 {
            let allowed = any_match(&self.allow_column_name_patterns, column_name);
            if !allowed {
                return true;
            }
        }
        any_match(&self.exclude_column_name_patterns, column_name)
    }

    /// The column-value-dimension decision.
    pub fn should_exclude_value(&self, value: &str) -> (r: bool)
        ensures
            r == spec_should_exclude(
                self@.allow_column_value,
                self@.exclude_column_value,
                value@,
            ),
    {
        if self.allow_column_value_patterns.len() > 0 {
            let allowed = any_match(&self.allow_column_value_patterns, value);
            if !allowed {
                return true;
            }
        }
        any_match(&self.exclude_column_value_patterns, value)
    }
}

/// The pattern strings of a concatenation are the concatenations of the
/// pattern strings.
proof fn lemma_views_of_add(a: Seq<CompiledPattern>, b: Seq<CompiledPattern>)
    ensures
        views_of(a + b) == views_of(a) + views_of(b),
{
    assert(views_of(a + b) =~= views_of(a) + views_of(b));
}

/// Flattening one more block appends that block's patterns.
proof fn lemma_flat_step(blocks: Seq<SqlFilterRules>, dim: Dimension, i: int)
    requires
        0 <= i < blocks.len(),
    ensures
        flat_patterns(blocks.take(i + 1), dim) == flat_patterns(blocks.take(i), dim)
            + block_patterns(blocks[i], dim),
{
    assert(blocks.take(i + 1).drop_last() =~= blocks.take(i));
    assert(blocks.take(i + 1).last() == blocks[i]);
}

/// Validity of a concatenation is validity of both halves.
proof fn lemma_valid_split(a: Seq<Seq<char>>, b: Seq<Seq<char>>)
    ensures
        patterns_valid(a + b) == (patterns_valid(a) && patterns_valid(b)),
{
    if patterns_valid(a) && patterns_valid(b) {
        assert forall|i: int| 0 <= i < (a + b).len() implies pattern_valid(#[trigger] (a + b)[i]) by {
            if i < a.len() {
                assert((a + b)[i] == a[i]);
            } else {
                assert((a + b)[i] == b[i - a.len()]);
            }
        }
    }
    if patterns_valid(a + b) {
        assert forall|i: int| 0 <= i < a.len() implies pattern_valid(#[trigger] a[i]) by {
            assert(a[i] == (a + b)[i]);
        }
        assert forall|i: int| 0 <= i < b.len() implies pattern_valid(#[trigger] b[i]) by {
            assert(b[i] == (a + b)[a.len() + i]);
        }
    }
}

/// An element of either half is an element of the concatenation.
proof fn lemma_contains_in_concat(a: Seq<Seq<char>>, b: Seq<Seq<char>>, p: Seq<char>)
    requires
        a.contains(p) || b.contains(p),
    ensures
        (a + b).contains(p),
{
    if a.contains(p) {
        let k = choose|k: int| 0 <= k < a.len() && a[k] == p;
        assert((a + b)[k] == p);
    } else {
        let k = choose|k: int| 0 <= k < b.len() && b[k] == p;
        assert((a + b)[a.len() + k] == p);
    }
}

/// A pattern of one block stands in the flattened dimension.
proof fn lemma_flat_contains(blocks: Seq<SqlFilterRules>, dim: Dimension, i: int, p: Seq<char>)
    requires
        0 <= i < blocks.len(),
        block_patterns(blocks[i], dim).contains(p),
    ensures
        flat_patterns(blocks, dim).contains(p),
    decreases blocks.len(),
{
    if i == blocks.len() - 1 {
        lemma_contains_in_concat(
            flat_patterns(blocks.drop_last(), dim),
            block_patterns(blocks.last(), dim),
            p,
        );
    } else {
        assert(blocks.drop_last()[i] == blocks[i]);
        lemma_flat_contains(blocks.drop_last(), dim, i, p);
        lemma_contains_in_concat(
            flat_patterns(blocks.drop_last(), dim),
            block_patterns(blocks.last(), dim),
            p,
        );
    }
}

/// A pattern of any one direction and dimension stands among the configured
/// patterns.
proof fn lemma_configured_from_part(gf: Option<&GlobalFilters>, p: Seq<char>)
    requires
        ({
            ||| flat_patterns(exclude_blocks(gf), Dimension::Database).contains(p)
            ||| flat_patterns(exclude_blocks(gf), Dimension::Table).contains(p)
            ||| flat_patterns(exclude_blocks(gf), Dimension::ColumnName).contains(p)
            ||| flat_patterns(exclude_blocks(gf), Dimension::ColumnValue).contains(p)
            ||| flat_patterns(allow_blocks(gf), Dimension::Database).contains(p)
            ||| flat_patterns(allow_blocks(gf), Dimension::Table).contains(p)
            ||| flat_patterns(allow_blocks(gf), Dimension::ColumnName).contains(p)
            ||| flat_patterns(allow_blocks(gf), Dimension::ColumnValue).contains(p)
        }),
    ensures
        configured_patterns(gf).contains(p),
{
    let s1 = flat_patterns(exclude_blocks(gf), Dimension::Database);
    let s2 = flat_patterns(exclude_blocks(gf), Dimension::Table);
    let s3 = flat_patterns(exclude_blocks(gf), Dimension::ColumnName);
    let s4 = flat_patterns(exclude_blocks(gf), Dimension::ColumnValue);
    let s5 = flat_patterns(allow_blocks(gf), Dimension::Database);
    let s6 = flat_patterns(allow_blocks(gf), Dimension::Table);
    let s7 = flat_patterns(allow_blocks(gf), Dimension::ColumnName);
    let s8 = flat_patterns(allow_blocks(gf), Dimension::ColumnValue);
    if s1.contains(p) || s2.contains(p) {
        lemma_contains_in_concat(s1, s2, p);
    }
    if (s1 + s2).contains(p) || s3.contains(p) {
        lemma_contains_in_concat(s1 + s2, s3, p);
    }
    if (s1 + s2 + s3).contains(p) || s4.contains(p) {
        lemma_contains_in_concat(s1 + s2 + s3, s4, p);
    }
    if (s1 + s2 + s3 + s4).contains(p) || s5.contains(p) {
        lemma_contains_in_concat(s1 + s2 + s3 + s4, s5, p);
    }
    if (s1 + s2 + s3 + s4 + s5).contains(p) || s6.contains(p) {
        lemma_contains_in_concat(s1 + s2 + s3 + s4 + s5, s6, p);
    }
    if (s1 + s2 + s3 + s4 + s5 + s6).contains(p) || s7.contains(p) {
        lemma_contains_in_concat(s1 + s2 + s3 + s4 + s5 + s6, s7, p);
    }
    lemma_contains_in_concat(s1 + s2 + s3 + s4 + s5 + s6 + s7, s8, p);
}

/// If every pattern of the flattened dimension is valid, so is every pattern
/// of each single block.
proof fn lemma_flat_block_valid(blocks: Seq<SqlFilterRules>, dim: Dimension, i: int)
    requires
        0 <= i < blocks.len(),
        patterns_valid(flat_patterns(blocks, dim)),
    ensures
        patterns_valid(block_patterns(blocks[i], dim)),
    decreases blocks.len(),
{
    lemma_valid_split(flat_patterns(blocks.drop_last(), dim), block_patterns(blocks.last(), dim));
    if i < blocks.len() - 1 {
        assert(blocks.drop_last()[i] == blocks[i]);
        lemma_flat_block_valid(blocks.drop_last(), dim, i);
    }
}

} // verus!
