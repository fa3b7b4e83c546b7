use tsight_agent::config::{GlobalFilters, SqlFilterRules};
use tsight_agent::discovery::{
    build_table_schema, collect_table_results, simplify_type, ColumnMeta, FilterConfig,
    ProbedColumn, TableSchema,
};
use tsight_agent::errors::QueryError;

fn column(name: &str, column_type: &str) -> ColumnMeta {
    ColumnMeta { name: name.to_string(), column_type: column_type.to_string() }
}

fn schema(database: &str, table: &str, row_count: u64) -> TableSchema {
    TableSchema {
        database: database.to_string(),
        table: table.to_string(),
        row_count,
        columns: Vec::new(),
    }
}

#[test]
fn test_simplify_type_mappings() {
    assert_eq!(simplify_type("Int32"), "int");
    assert_eq!(simplify_type("UInt64"), "int");
    assert_eq!(simplify_type("Float32"), "float");
    assert_eq!(simplify_type("Float64"), "float");
    assert_eq!(simplify_type("Bool"), "bool");
    assert_eq!(simplify_type("Boolean"), "bool");
    assert_eq!(simplify_type("Date"), "date");
    assert_eq!(simplify_type("DateTime"), "datetime");
    assert_eq!(simplify_type("DateTime64"), "datetime");
    assert_eq!(simplify_type("Enum8"), "string");
}

#[test]
fn test_simplify_type_unmapped_defaults_to_string() {
    assert_eq!(simplify_type("String"), "string");
    assert_eq!(simplify_type("LowCardinality(String)"), "string");
    assert_eq!(simplify_type("Date32"), "string"); // only the exact `Date` maps to date
    assert_eq!(simplify_type(""), "string");
}

#[test]
fn test_builtin_databases_excluded_by_default() {
    let config = FilterConfig::default();
    assert!(config.should_exclude_database("system"));
    assert!(config.should_exclude_database("INFORMATION_SCHEMA"));
    assert!(config.should_exclude_database("information_schema"));
    assert!(!config.should_exclude_database("test_db"));
    assert!(!config.should_exclude_table("anything"));
}

#[test]
fn test_builtin_exclusion_beats_allow_pattern() {
    // An allow pattern that matches `system` cannot bring it back.
    let mut allow_rules = SqlFilterRules::default();
    allow_rules.database_regexes = Some(vec!["system".to_string(), ".*".to_string()]);

    let mut global_filters = GlobalFilters::default();
    global_filters.sql_filters_allow = Some(vec![allow_rules]);

    let config = FilterConfig::with_global_filters(Some(&global_filters)).unwrap();
    assert!(config.should_exclude_database("system"));
    assert!(config.should_exclude_database("information_schema"));
    assert!(config.should_exclude_database("INFORMATION_SCHEMA"));
    assert!(!config.should_exclude_database("ordinary"));
}

#[test]
fn test_filter_config_rejects_invalid_pattern() {
    let mut exclude_rules = SqlFilterRules::default();
    exclude_rules.database_regexes = Some(vec!["[".to_string()]);

    let mut global_filters = GlobalFilters::default();
    global_filters.sql_filters_exclude = Some(vec![exclude_rules]);

    let err = FilterConfig::with_global_filters(Some(&global_filters)).unwrap_err();
    assert!(matches!(err, QueryError::ExecutionError(_)));
}

#[test]
fn test_filter_databases_keeps_store_order() {
    let mut exclude_rules = SqlFilterRules::default();
    exclude_rules.database_regexes = Some(vec!["^_.*".to_string()]);

    let mut global_filters = GlobalFilters::default();
    global_filters.sql_filters_exclude = Some(vec![exclude_rules]);

    let config = FilterConfig::with_global_filters(Some(&global_filters)).unwrap();
    let names = vec![
        "test_db".to_string(),
        "_test_db2".to_string(),
        "system".to_string(),
        "logs".to_string(),
    ];
    let kept = config.filter_databases(names);
    assert_eq!(kept, vec!["test_db".to_string(), "logs".to_string()]);
}

#[test]
fn test_filter_tables_keeps_store_order() {
    let mut exclude_rules = SqlFilterRules::default();
    exclude_rules.table_regexes = Some(vec!["secret".to_string(), "^_.*".to_string()]);

    let mut global_filters = GlobalFilters::default();
    global_filters.sql_filters_exclude = Some(vec![exclude_rules]);

    let config = FilterConfig::with_global_filters(Some(&global_filters)).unwrap();
    let names = vec![
        "orders".to_string(),
        "some_secret_db".to_string(),
        "_my_lovely_tmp_table".to_string(),
        "card_numbers".to_string(),
    ];
    let kept = config.filter_tables(names);
    assert_eq!(kept, vec!["orders".to_string(), "card_numbers".to_string()]);
}

#[test]
fn test_excluded_columns_omitted_from_schema() {
    // Table `orders` has columns {user_id, order_name, order_cost}; with
    // exclude patterns ["cost", "user_id"] only `order_name` is discovered.
    let mut exclude_rules = SqlFilterRules::default();
    exclude_rules.column_name_regexes = Some(vec!["cost".to_string(), "user_id".to_string()]);

    let mut global_filters = GlobalFilters::default();
    global_filters.sql_filters_exclude = Some(vec![exclude_rules]);

    let config = FilterConfig::with_global_filters(Some(&global_filters)).unwrap();
    let columns = vec![
        column("user_id", "String"),
        column("order_name", "String"),
        column("order_cost", "Float64"),
    ];
    let retained = config.plan_table_columns(columns);
    assert_eq!(retained, vec![column("order_name", "String")]);

    let probed = retained
        .into_iter()
        .map(|c| ProbedColumn { column: c, cardinality: Some(4) })
        .collect::<Vec<_>>();
    let built = build_table_schema("test_db".to_string(), "orders".to_string(), 14, probed);
    assert_eq!(built.columns.len(), 1);
    assert_eq!(built.columns[0].0, "order_name");
}

#[test]
fn test_build_table_schema_simplifies_types() {
    let probed = vec![
        ProbedColumn { column: column("id", "UInt64"), cardinality: Some(14) },
        ProbedColumn { column: column("created_at", "DateTime"), cardinality: Some(10) },
        ProbedColumn { column: column("is_deleted", "Bool"), cardinality: None },
    ];
    let built = build_table_schema("test_db".to_string(), "orders".to_string(), 14, probed);

    assert_eq!(built.database, "test_db");
    assert_eq!(built.table, "orders");
    assert_eq!(built.row_count, 14);
    assert_eq!(built.columns.len(), 3);
    assert_eq!(built.columns[0].0, "id");
    assert_eq!(built.columns[0].1.simple_type, "int");
    assert_eq!(built.columns[0].1.cardinality, Some(14));
    assert_eq!(built.columns[1].0, "created_at");
    assert_eq!(built.columns[1].1.simple_type, "datetime");
    assert_eq!(built.columns[1].1.cardinality, Some(10));
    assert_eq!(built.columns[2].0, "is_deleted");
    assert_eq!(built.columns[2].1.simple_type, "bool");
    assert_eq!(built.columns[2].1.cardinality, None);
}

#[test]
fn test_one_failing_table_does_not_abort_the_run() {
    // One of five tables fails its discovery: the other four are returned
    // and the failing one is simply absent.
    let results = vec![
        Ok(schema("db", "a", 1)),
        Ok(schema("db", "b", 2)),
        Err(QueryError::ExecutionError("row count failed for db.c".to_string())),
        Ok(schema("db", "d", 4)),
        Ok(schema("db", "e", 5)),
    ];
    let schemas = collect_table_results(results);
    assert_eq!(schemas.len(), 4);
    let tables: Vec<&str> = schemas.iter().map(|s| s.table.as_str()).collect();
    assert_eq!(tables, vec!["a", "b", "d", "e"]);
}

#[test]
fn test_all_tables_failing_yields_empty_run() {
    let results: Vec<Result<TableSchema, QueryError>> = vec![
        Err(QueryError::ExecutionError("x".to_string())),
        Err(QueryError::ConnectionError("y".to_string())),
    ];
    assert_eq!(collect_table_results(results).len(), 0);
}
