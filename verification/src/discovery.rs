//! The filter configuration consulted during schema discovery, and the pure
//! parts of discovery itself: catalog filtering, column planning, type
//! simplification and schema assembly.
//!
//! The store round trips (listing catalogs, counting rows, probing
//! cardinality) happen outside the library; each function here takes their
//! results as plain values.

use vstd::prelude::*;

use crate::config::GlobalFilters;
use crate::errors::QueryError;
use crate::filters::{
    compiled_view, global_valid, spec_should_exclude, SqlFilters, SqlFiltersView,
};
use crate::text::{str_eq, str_has_prefix, string_views};

verus! {

/// The catalog databases that are always excluded, whatever the policy says.
pub open spec fn builtin_database_names() -> Seq<Seq<char>> {
    seq!["system"@, "INFORMATION_SCHEMA"@, "information_schema"@]
}

/// Whether a database name is one of the built-in exclusions.
pub open spec fn builtin_excluded_db(name: Seq<char>) -> bool {
    name == "system"@ || name == "INFORMATION_SCHEMA"@ || name == "information_schema"@
}

/// The compiled filters a configuration yields: none when no configuration
/// was given.
pub open spec fn spec_config_filters(gf: Option<&GlobalFilters>) -> Option<SqlFiltersView> {
    match gf {
        Option::None => Option::None,
        Option::Some(_) => Option::Some(compiled_view(gf)),
    }
}

/// Database and table exclusions for schema discovery: the built-in excluded
/// names plus the optional compiled policy. Immutable after construction.
#[derive(Debug)]
pub struct FilterConfig {
    excluded_databases: Vec<String>,
    excluded_tables: Vec<String>,
    sql_filters: Option<SqlFilters>,
}

impl FilterConfig {
    /// The built-in excluded database names.
    pub closed spec fn spec_excluded_databases(&self) -> Seq<Seq<char>> {
        string_views(self.excluded_databases@)
    }

    /// The built-in excluded table names.
    pub closed spec fn spec_excluded_tables(&self) -> Seq<Seq<char>> {
        string_views(self.excluded_tables@)
    }

    /// The compiled policy, if one was configured.
    pub closed spec fn spec_filters(&self) -> Option<SqlFiltersView> {
        match self.sql_filters {
            Option::None => Option::None,
            Option::Some(f) => Option::Some(f@),
        }
    }

    /// Well-formed: the built-in database exclusions are exactly the three
    /// catalog names, and no table is excluded outside the policy.
    pub open spec fn wf(&self) -> bool {
        &&& self.spec_excluded_databases() == builtin_database_names()
        &&& self.spec_excluded_tables() == Seq::<Seq<char>>::empty()
    }

    /// The database-dimension decision, built-in exclusions first.
    pub open spec fn spec_should_exclude_database(&self, name: Seq<char>) -> bool {
        self.spec_excluded_databases().contains(name) || match self.spec_filters() {
            Option::None => false,
            Option::Some(f) => spec_should_exclude(f.allow_database, f.exclude_database, name),
        }
    }

    /// The table-dimension decision.
    pub open spec fn spec_should_exclude_table(&self, name: Seq<char>) -> bool {
        self.spec_excluded_tables().contains(name) || match self.spec_filters() {
            Option::None => false,
            Option::Some(f) => spec_should_exclude(f.allow_table, f.exclude_table, name),
        }
    }

    /// The column-name-dimension decision.
    pub open spec fn spec_should_exclude_column(&self, name: Seq<char>) -> bool {
        match self.spec_filters() {
            Option::None => false,
            Option::Some(f) => spec_should_exclude(f.allow_column_name, f.exclude_column_name, name),
        }
    }

    /// The column-value-dimension decision.
    pub open spec fn spec_should_exclude_value(&self, value: Seq<char>) -> bool {
        match self.spec_filters() {
            Option::None => false,
            Option::Some(f) => spec_should_exclude(f.allow_column_value, f.exclude_column_value, value),
        }
    }

    /// Whether a policy is configured at all.
    pub fn has_filters(&self) -> (r: bool)
        ensures
            r == (self.spec_filters() is Some),
    {
        self.sql_filters.is_some()
    }

    /// A configuration with an optional policy: fails, building nothing,
    /// exactly when some configured pattern is invalid.
    pub fn with_global_filters(global_filters: Option<&GlobalFilters>) -> (r: Result<
        FilterConfig,
        QueryError,
    >)
        ensures
            r is Ok <==> global_valid(global_filters),
            r is Ok ==> r->Ok_0.wf(),
            r is Ok ==> r->Ok_0.spec_filters() == spec_config_filters(global_filters),
            r is Err ==> r->Err_0 is ExecutionError,
    {
        let mut config = FilterConfig::default();
        if let Some(gf) = global_filters {
            match SqlFilters::new(Some(gf)) {
                Ok(filters) => {
                    config.sql_filters = Some(filters);
                },
                Err(e) => {
                    let message = String::from_str("Failed to create SQL filters: ").concat(
                        e.message.as_str(),
                    );
                    return Err(QueryError::ExecutionError(message));
                },
            }
        }
        Ok(config)
    }

    /// Whether discovery must drop the database.
    pub fn should_exclude_database(&self, db_name: &str) -> (r: bool)
        ensures
            r == self.spec_should_exclude_database(db_name@),
    {
        if contains_str(&self.excluded_databases, db_name) {
            return true;
        }
        if let Some(filters) = &self.sql_filters {
            if filters.should_exclude_database(db_name) {
                return true;
            }
        }
        false
    }

    /// Whether discovery must drop the table.
    pub fn should_exclude_table(&self, table_name: &str) -> (r: bool)
        ensures
            r == self.spec_should_exclude_table(table_name@),
    {
        if contains_str(&self.excluded_tables, table_name) {
            return true;
        }
        if let Some(filters) = &self.sql_filters {
            if filters.should_exclude_table(table_name) {
                return true;
            }
        }
        false
    }

    /// Whether a column must be omitted from any reported schema.
    pub fn should_exclude_column(&self, column_name: &str) -> (r: bool)
        ensures
            r == self.spec_should_exclude_column(column_name@),
    {
        if let Some(filters) = &self.sql_filters {
            return filters.should_exclude_column(column_name);
        }
        false
    }

    /// Whether a (space-stripped) value must not leave the boundary.
    pub fn should_exclude_value(&self, value: &str) -> (r: bool)
        ensures
            r == self.spec_should_exclude_value(value@),
    {
        if let Some(filters) = &self.sql_filters {
            return filters.should_exclude_value(value);
        }
        false
    }
}

impl Default for FilterConfig {
    /// The built-in exclusions alone, with no policy.
    fn default() -> (r: Self)
        ensures
            r.wf(),
            r.spec_filters() is None,
    {
        let mut excluded_databases: Vec<String> = Vec::new();
        excluded_databases.push(String::from_str("system"));
        excluded_databases.push(String::from_str("INFORMATION_SCHEMA"));
        excluded_databases.push(String::from_str("information_schema"));
        let excluded_tables: Vec<String> = Vec::new();
        proof {
            assert(string_views(excluded_databases@) =~= builtin_database_names());
            assert(string_views(excluded_tables@) =~= Seq::<Seq<char>>::empty());
        }
        FilterConfig { excluded_databases, excluded_tables, sql_filters: None }
    }
}

/// Law: a built-in database name is excluded even when an allow pattern
/// would otherwise admit it.
pub proof fn lemma_builtin_database_always_excluded(fc: &FilterConfig, name: Seq<char>)
    requires
        fc.wf(),
        builtin_excluded_db(name),
    ensures
        fc.spec_should_exclude_database(name),
{
    if name == "system"@ {
        assert(builtin_database_names()[0] == name);
    } else if name == "INFORMATION_SCHEMA"@ {
        assert(builtin_database_names()[1] == name);
    } else {
        assert(builtin_database_names()[2] == name);
    }
}

/// Whether the list holds a string with the candidate's characters.
fn contains_str(list: &Vec<String>, candidate: &str) -> (r: bool)
    ensures
        r == string_views(list@).contains(candidate@),
{
    let mut i: usize = 0;
    while i < list.len()
        invariant
            i <= list@.len(),
            forall|j: int| 0 <= j < i ==> string_views(list@)[j] != candidate@,
        decreases list@.len() - i,
    {
        if str_eq(&list[i], candidate) {
            proof {
                assert(string_views(list@)[i as int] == candidate@);
            }
            return true;
        }
        i += 1;
    }
    false
}

/// A column as the store's catalog reports it: its name and its native type.
#[derive(Debug, PartialEq, Clone)]
pub struct ColumnMeta {
    pub name: String,
    pub column_type: String,
}

/// A retained column together with the result of its cardinality probe;
/// `None` when the probe failed and the count is absent.
#[derive(Debug, PartialEq, Clone)]
pub struct ProbedColumn {
    pub column: ColumnMeta,
    pub cardinality: Option<u64>,
}

/// What a schema reports of one column.
#[derive(Debug, PartialEq, Clone)]
pub struct ColumnInfo {
    /// Simplified type name (`int`, `float`, `bool`, `date`, `datetime`,
    /// `string`).
    pub simple_type: String,
    /// Approximate number of unique values, when the probe succeeded.
    pub cardinality: Option<u64>,
}

/// Schema information for one table of one database.
#[derive(Debug, PartialEq, Clone)]
pub struct TableSchema {
    pub database: String,
    pub table: String,
    pub row_count: u64,
    /// Column name to column information; keys are unique whenever the
    /// catalog reported each column once.
    pub columns: Vec<(String, ColumnInfo)>,
}

/// The native type simplified to the enumerated type name, by prefix rules.
pub open spec fn spec_simplify_type(t: Seq<char>) -> Seq<char> {
    if "Int"@.is_prefix_of(t) || "UInt"@.is_prefix_of(t) {
        "int"@
    } else if "Float"@.is_prefix_of(t) {
        "float"@
    } else if t == "Bool"@ || t == "Boolean"@ {
        "bool"@
    } else if t == "Date"@ {
        "date"@
    } else if "DateTime"@.is_prefix_of(t) {
        "datetime"@
    } else {
        "string"@
    }
}

/// Simplifies a native store type to the enumerated type name. Unmapped
/// native types default to `string`.
pub fn simplify_type(ch_type: &str) -> (r: String)
    ensures
        r@ == spec_simplify_type(ch_type@),
{
    if str_has_prefix(ch_type, "Int") || str_has_prefix(ch_type, "UInt") {
        String::from_str("int")
    } else if str_has_prefix(ch_type, "Float") {
        String::from_str("float")
    } else if str_eq(ch_type, "Bool") || str_eq(ch_type, "Boolean") {
        String::from_str("bool")
    } else if str_eq(ch_type, "Date") {
        String::from_str("date")
    } else if str_has_prefix(ch_type, "DateTime") {
        String::from_str("datetime")
    } else {
        String::from_str("string")
    }
}

/// The catalog query that lists the store's databases.
pub fn databases_query() -> (r: String)
    ensures
        r@ == "SELECT name FROM system.databases"@,
{
    String::from_str("SELECT name FROM system.databases")
}

/// The catalog query that lists one database's tables.
pub fn tables_query(database: &str) -> (r: String)
    ensures
        r@ == "SHOW TABLES FROM "@ + database@,
{
    String::from_str("SHOW TABLES FROM ").concat(database)
}

/// The catalog query that lists one table's columns with their native types.
pub fn columns_query(database: &str, table: &str) -> (r: String)
    ensures
        r@ == "SELECT name, type FROM system.columns WHERE database = '"@ + database@
            + "' AND table = '"@ + table@ + "'"@,
{
    let mut q = String::from_str("SELECT name, type FROM system.columns WHERE database = '");
    q.append(database);
    q.append("' AND table = '");
    q.append(table);
    q.append("'");
    q
}

/// The probe that approximates one column's unique-value count.
pub fn cardinality_query(column: &str, database: &str, table: &str) -> (r: String)
    ensures
        r@ == "SELECT uniq("@ + column@ + ") FROM "@ + database@ + "."@ + table@,
{
    let mut q = String::from_str("SELECT uniq(");
    q.append(column);
    q.append(") FROM ");
    q.append(database);
    q.append(".");
    q.append(table);
    q
}

/// The query that counts one table's rows.
pub fn row_count_query(database: &str, table: &str) -> (r: String)
    ensures
        r@ == "SELECT count() FROM "@ + database@ + "."@ + table@,
{
    let mut q = String::from_str("SELECT count() FROM ");
    q.append(database);
    q.append(".");
    q.append(table);
    q
}

/// An arbitrary-shape query framed so that the store answers one JSON object
/// per line.
pub fn job_query(query: &str) -> (r: String)
    ensures
        r@ == query@ + " FORMAT JSONEachRow"@,
{
    let mut q = String::from_str(query);
    q.append(" FORMAT JSONEachRow");
    q
}

/// The database names discovery keeps, in the store's order.
pub open spec fn spec_filter_databases(fc: FilterConfig, names: Seq<String>) -> Seq<String>
    decreases names.len(),
{
    if names.len() == 0 {
        Seq::empty()
    } else {
        let rest = spec_filter_databases(fc, names.drop_last());
        if fc.spec_should_exclude_database(names.last()@) {
            rest
        } else {
            rest.push(names.last())
        }
    }
}

/// The table names discovery keeps, in the store's order.
pub open spec fn spec_filter_tables(fc: FilterConfig, names: Seq<String>) -> Seq<String>
    decreases names.len(),
{
    if names.len() == 0 {
        Seq::empty()
    } else {
        let rest = spec_filter_tables(fc, names.drop_last());
        if fc.spec_should_exclude_table(names.last()@) {
            rest
        } else {
            rest.push(names.last())
        }
    }
}

/// The columns discovery retains for probing and reporting, in catalog
/// order.
pub open spec fn spec_plan_columns(fc: FilterConfig, columns: Seq<ColumnMeta>) -> Seq<ColumnMeta>
    decreases columns.len(),
{
    if columns.len() == 0 {
        Seq::empty()
    } else {
        let rest = spec_plan_columns(fc, columns.drop_last());
        if fc.spec_should_exclude_column(columns.last().name@) {
            rest
        } else {
            rest.push(columns.last())
        }
    }
}

/// The schemas of the tables whose discovery succeeded, in order; failed
/// tables are absent.
pub open spec fn spec_collect_schemas(results: Seq<Result<TableSchema, QueryError>>) -> Seq<
    TableSchema,
>
    decreases results.len(),
{
    if results.len() == 0 {
        Seq::empty()
    } else {
        let rest = spec_collect_schemas(results.drop_last());
        match results.last() {
            Result::Ok(schema) => rest.push(schema),
            Result::Err(_) => rest,
        }
    }
}

impl FilterConfig {
    /// Drops every database the policy excludes; the rest keep the store's
    /// order.
    pub fn filter_databases(&self, names: Vec<String>) -> (r: Vec<String>)
        ensures
            r@ == spec_filter_databases(*self, names@),
    {
        let ghost orig = names@;
        let mut names = names;
        let mut out: Vec<String> = Vec::new();
        let ghost mut k: int = 0;
        while names.len() > 0
            invariant
                0 <= k <= orig.len(),
                names@ == orig.skip(k),
                out@ == spec_filter_databases(*self, orig.take(k)),
            decreases names@.len(),
        {
            let name = names.remove(0);
            proof {
                assert(name == orig[k]);
                assert(orig.take(k + 1).drop_last() =~= orig.take(k));
                assert(orig.take(k + 1).last() == orig[k]);
            }
            if !self.should_exclude_database(name.as_str()) {
                out.push(name);
            }
            proof {
                k = k + 1;
                assert(names@ =~= orig.skip(k));
            }
        }
        proof {
            assert(orig.take(orig.len() as int) =~= orig);
        }
        out
    }

    /// Drops every table the policy excludes; the rest keep the store's
    /// order.
    pub fn filter_tables(&self, names: Vec<String>) -> (r: Vec<String>)
        ensures
            r@ == spec_filter_tables(*self, names@),
    {
        let ghost orig = names@;
        let mut names = names;
        let mut out: Vec<String> = Vec::new();
        let ghost mut k: int = 0;
        while names.len() > 0
            invariant
                0 <= k <= orig.len(),
                names@ == orig.skip(k),
                out@ == spec_filter_tables(*self, orig.take(k)),
            decreases names@.len(),
        {
            let name = names.remove(0);
            proof {
                assert(name == orig[k]);
                assert(orig.take(k + 1).drop_last() =~= orig.take(k));
                assert(orig.take(k + 1).last() == orig[k]);
            }
            if !self.should_exclude_table(name.as_str()) {
                out.push(name);
            }
            proof {
                k = k + 1;
                assert(names@ =~= orig.skip(k));
            }
        }
        proof {
            assert(orig.take(orig.len() as int) =~= orig);
        }
        out
    }

    /// Omits every excluded column before any probe is planned: an omitted
    /// column is never probed and never reported.
    pub fn plan_table_columns(&self, columns: Vec<ColumnMeta>) -> (r: Vec<ColumnMeta>)
        ensures
            r@ == spec_plan_columns(*self, columns@),
    {
        let ghost orig = columns@;
        let mut columns = columns;
        let mut out: Vec<ColumnMeta> = Vec::new();
        let ghost mut k: int = 0;
        while columns.len() > 0
            invariant
                0 <= k <= orig.len(),
                columns@ == orig.skip(k),
                out@ == spec_plan_columns(*self, orig.take(k)),
            decreases columns@.len(),
        {
            let column = columns.remove(0);
            proof {
                assert(column == orig[k]);
                assert(orig.take(k + 1).drop_last() =~= orig.take(k));
                assert(orig.take(k + 1).last() == orig[k]);
            }
            if !self.should_exclude_column(column.name.as_str()) {
                out.push(column);
            }
            proof {
                k = k + 1;
                assert(columns@ =~= orig.skip(k));
            }
        }
        proof {
            assert(orig.take(orig.len() as int) =~= orig);
        }
        out
    }
}

/// Assembles one table's schema from the probed columns: each column keeps
/// its name and probe result and gets its simplified type.
pub fn build_table_schema(
    database: String,
    table: String,
    row_count: u64,
    probed: Vec<ProbedColumn>,
) -> (r: TableSchema)
    ensures
        r.database == database,
        r.table == table,
        r.row_count == row_count,
        r.columns@.len() == probed@.len(),
        forall|i: int|
            0 <= i < probed@.len() ==> (#[trigger] r.columns@[i]).0 == probed@[i].column.name,
        forall|i: int|
            0 <= i < probed@.len() ==> (#[trigger] r.columns@[i]).1.simple_type@
                == spec_simplify_type(probed@[i].column.column_type@),
        forall|i: int|
            0 <= i < probed@.len() ==> (#[trigger] r.columns@[i]).1.cardinality
                == probed@[i].cardinality,
{
    let ghost orig = probed@;
    let mut probed = probed;
    let mut columns: Vec<(String, ColumnInfo)> = Vec::new();
    let ghost mut k: int = 0;
    while probed.len() > 0
        invariant
            0 <= k <= orig.len(),
            probed@ == orig.skip(k),
            columns@.len() == k,
            forall|i: int| 0 <= i < k ==> (#[trigger] columns@[i]).0 == orig[i].column.name,
            forall|i: int|
                0 <= i < k ==> (#[trigger] columns@[i]).1.simple_type@ == spec_simplify_type(
                    orig[i].column.column_type@,
                ),
            forall|i: int| 0 <= i < k ==> (#[trigger] columns@[i]).1.cardinality == orig[i].cardinality,
        decreases probed@.len(),
    {
        let entry = probed.remove(0);
        proof {
            assert(entry == orig[k]);
        }
        let simple_type = simplify_type(entry.column.column_type.as_str());
        columns.push((entry.column.name, ColumnInfo { simple_type, cardinality: entry.cardinality }));
        proof {
            k = k + 1;
            assert(probed@ =~= orig.skip(k));
        }
    }
    TableSchema { database, table, row_count, columns }
}

/// Law: a planned column is never one the policy excludes, so no probe is
/// attempted for an excluded column and no schema reports one.
pub proof fn lemma_planned_columns_not_excluded(
    fc: FilterConfig,
    columns: Seq<ColumnMeta>,
    i: int,
)
    requires
        0 <= i < spec_plan_columns(fc, columns).len(),
    ensures
        !fc.spec_should_exclude_column(spec_plan_columns(fc, columns)[i].name@),
    decreases columns.len(),
{
    if columns.len() > 0 {
        let rest = spec_plan_columns(fc, columns.drop_last());
        if !fc.spec_should_exclude_column(columns.last().name@) && i == rest.len() {
        } else {
            lemma_planned_columns_not_excluded(fc, columns.drop_last(), i);
        }
    }
}

/// Law: a schema assembled from columns with pairwise distinct names reports
/// each column name once (the unique-keys invariant of a schema's column
/// mapping).
pub proof fn lemma_built_schema_columns_unique(r: TableSchema, probed: Seq<ProbedColumn>)
    requires
        r.columns@.len() == probed.len(),
        forall|i: int| 0 <= i < probed.len() ==> (#[trigger] r.columns@[i]).0 == probed[i].column.name,
        forall|i: int, j: int|
            0 <= i < j < probed.len() ==> probed[i].column.name@ != probed[j].column.name@,
    ensures
        forall|i: int, j: int|
            0 <= i < j < r.columns@.len() ==> (#[trigger] r.columns@[i]).0@ != (
            #[trigger] r.columns@[j]).0@,
{
}

/// Keeps the schemas of the tables whose discovery succeeded: one table's
/// failure never aborts its siblings or the run.
pub fn collect_table_results(results: Vec<Result<TableSchema, QueryError>>) -> (r: Vec<TableSchema>)
    ensures
        r@ == spec_collect_schemas(results@),
{
    let ghost orig = results@;
    let mut results = results;
    let mut out: Vec<TableSchema> = Vec::new();
    let ghost mut k: int = 0;
    while results.len() > 0
        invariant
            0 <= k <= orig.len(),
            results@ == orig.skip(k),
            out@ == spec_collect_schemas(orig.take(k)),
        decreases results@.len(),
    {
        let result = results.remove(0);
        proof {
            assert(result == orig[k]);
            assert(orig.take(k + 1).drop_last() =~= orig.take(k));
            assert(orig.take(k + 1).last() == orig[k]);
        }
        match result {
            Ok(schema) => {
                out.push(schema);
            },
            Err(_) => {},
        }
        proof {
            k = k + 1;
            assert(results@ =~= orig.skip(k));
        }
    }
    proof {
        assert(orig.take(orig.len() as int) =~= orig);
    }
    out
}

} // verus!
