use tsight_agent::config::{GlobalFilters, SqlFilterRules};
use tsight_agent::filters::SqlFilters;

#[test]
fn test_sql_filters() {
    // Create test filter rules
    let mut exclude_rules = SqlFilterRules::default();
    exclude_rules.database_regexes = Some(vec!["^test_.*".to_string(), "^_.*".to_string()]);

    let mut allow_rules = SqlFilterRules::default();
    allow_rules.database_regexes = Some(vec!["^prod_.*".to_string()]);

    let mut global_filters = GlobalFilters::default();
    global_filters.sql_filters_exclude = Some(vec![exclude_rules]);
    global_filters.sql_filters_allow = Some(vec![allow_rules]);

    // Create SQL filters
    let sql_filters = SqlFilters::new(Some(&global_filters)).unwrap();

    // Test database filtering
    assert!(sql_filters.should_exclude_database("test_db"));
    assert!(sql_filters.should_exclude_database("_internal"));
    assert!(!sql_filters.should_exclude_database("prod_db"));
    assert!(sql_filters.should_exclude_database("staging_db")); // Not in allow list
}

#[test]
fn test_no_configuration_excludes_nothing() {
    let sql_filters = SqlFilters::new(None).unwrap();
    assert!(!sql_filters.should_exclude_database("anything"));
    assert!(!sql_filters.should_exclude_table("anything"));
    assert!(!sql_filters.should_exclude_column("anything"));
    assert!(!sql_filters.should_exclude_value("anything"));
}

#[test]
fn test_empty_allow_uses_exclude_only() {
    // With no allow patterns the decision is open-world: only the exclude
    // set matters.
    let mut exclude_rules = SqlFilterRules::default();
    exclude_rules.database_regexes = Some(vec!["secret".to_string()]);

    let mut global_filters = GlobalFilters::default();
    global_filters.sql_filters_exclude = Some(vec![exclude_rules]);

    let sql_filters = SqlFilters::new(Some(&global_filters)).unwrap();

    assert!(sql_filters.should_exclude_database("very_secret_db"));
    assert!(!sql_filters.should_exclude_database("ordinary_db"));
}

#[test]
fn test_unmatched_allow_excludes_regardless_of_exclude_set() {
    // A non-empty allow set is closed-world: a candidate matching no allow
    // pattern is excluded even though no exclude pattern matches it.
    let mut allow_rules = SqlFilterRules::default();
    allow_rules.table_regexes = Some(vec!["^public_.*".to_string()]);

    let mut global_filters = GlobalFilters::default();
    global_filters.sql_filters_allow = Some(vec![allow_rules]);

    let sql_filters = SqlFilters::new(Some(&global_filters)).unwrap();

    assert!(sql_filters.should_exclude_table("internal_table"));
    assert!(!sql_filters.should_exclude_table("public_orders"));
}

#[test]
fn test_allow_checked_before_exclude() {
    // Allow pattern `^prod_.*`, exclude pattern `^test_.*`: `staging_db`
    // fails the allow check and is excluded without the exclude set ever
    // mattering.
    let mut exclude_rules = SqlFilterRules::default();
    exclude_rules.database_regexes = Some(vec!["^test_.*".to_string()]);

    let mut allow_rules = SqlFilterRules::default();
    allow_rules.database_regexes = Some(vec!["^prod_.*".to_string()]);

    let mut global_filters = GlobalFilters::default();
    global_filters.sql_filters_exclude = Some(vec![exclude_rules]);
    global_filters.sql_filters_allow = Some(vec![allow_rules]);

    let sql_filters = SqlFilters::new(Some(&global_filters)).unwrap();

    assert!(sql_filters.should_exclude_database("staging_db"));
    assert!(sql_filters.should_exclude_database("test_db"));
    assert!(!sql_filters.should_exclude_database("prod_db"));
}

#[test]
fn test_invalid_pattern_fails_construction() {
    let mut exclude_rules = SqlFilterRules::default();
    exclude_rules.column_value_regexes = Some(vec!["(".to_string()]);

    let mut global_filters = GlobalFilters::default();
    global_filters.sql_filters_exclude = Some(vec![exclude_rules]);

    let err = SqlFilters::new(Some(&global_filters)).unwrap_err();
    assert_eq!(err.pattern, "(");
    assert!(!err.message.is_empty());
}

#[test]
fn test_patterns_flattened_across_blocks() {
    // Two exclude blocks contribute to one flattened exclude set.
    let mut first = SqlFilterRules::default();
    first.table_regexes = Some(vec!["^tmp_.*".to_string()]);
    let mut second = SqlFilterRules::default();
    second.table_regexes = Some(vec!["secret".to_string()]);

    let mut global_filters = GlobalFilters::default();
    global_filters.sql_filters_exclude = Some(vec![first, second]);

    let sql_filters = SqlFilters::new(Some(&global_filters)).unwrap();

    assert!(sql_filters.should_exclude_table("tmp_orders"));
    assert!(sql_filters.should_exclude_table("some_secret_db"));
    assert!(!sql_filters.should_exclude_table("orders"));
}

#[test]
fn test_dimensions_are_independent() {
    // Excluding a database name does not, by itself, exclude a table or
    // column of the same name.
    let mut exclude_rules = SqlFilterRules::default();
    exclude_rules.database_regexes = Some(vec!["^payments$".to_string()]);

    let mut global_filters = GlobalFilters::default();
    global_filters.sql_filters_exclude = Some(vec![exclude_rules]);

    let sql_filters = SqlFilters::new(Some(&global_filters)).unwrap();

    assert!(sql_filters.should_exclude_database("payments"));
    assert!(!sql_filters.should_exclude_table("payments"));
    assert!(!sql_filters.should_exclude_column("payments"));
    assert!(!sql_filters.should_exclude_value("payments"));
}

#[test]
fn test_match_is_unanchored_substring_search() {
    let mut exclude_rules = SqlFilterRules::default();
    exclude_rules.column_name_regexes = Some(vec!["cost".to_string()]);

    let mut global_filters = GlobalFilters::default();
    global_filters.sql_filters_exclude = Some(vec![exclude_rules]);

    let sql_filters = SqlFilters::new(Some(&global_filters)).unwrap();

    assert!(sql_filters.should_exclude_column("order_cost"));
    assert!(sql_filters.should_exclude_column("cost_center"));
    assert!(!sql_filters.should_exclude_column("Cost")); // case-sensitive
}
