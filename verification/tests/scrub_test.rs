use tsight_agent::config::{GlobalFilters, SqlFilterRules};
use tsight_agent::discovery::FilterConfig;
use tsight_agent::scrub::{DynamicRow, FieldValue};

fn row(fields: Vec<(&str, FieldValue)>) -> DynamicRow {
    DynamicRow { fields: fields.into_iter().map(|(k, v)| (k.to_string(), v)).collect() }
}

fn text(s: &str) -> FieldValue {
    FieldValue::Text(s.to_string())
}

fn value_filter(patterns: Vec<&str>) -> FilterConfig {
    let mut exclude_rules = SqlFilterRules::default();
    exclude_rules.column_value_regexes = Some(patterns.into_iter().map(|p| p.to_string()).collect());
    let mut global_filters = GlobalFilters::default();
    global_filters.sql_filters_exclude = Some(vec![exclude_rules]);
    FilterConfig::with_global_filters(Some(&global_filters)).unwrap()
}

fn column_filter(patterns: Vec<&str>) -> FilterConfig {
    let mut exclude_rules = SqlFilterRules::default();
    exclude_rules.column_name_regexes = Some(patterns.into_iter().map(|p| p.to_string()).collect());
    let mut global_filters = GlobalFilters::default();
    global_filters.sql_filters_exclude = Some(vec![exclude_rules]);
    FilterConfig::with_global_filters(Some(&global_filters)).unwrap()
}

#[test]
fn test_card_number_dropped_after_space_stripping() {
    // Exclude pattern `\d{13,16}`; the card number value matches only once
    // its spaces are stripped, and the whole row is dropped.
    let config = value_filter(vec!["\\d{13,16}"]);
    let rows = vec![row(vec![("card_number", text("4222 2222 2222 2222"))])];
    let scrubbed = config.filter_job_results(rows);
    assert!(scrubbed.is_empty());
}

#[test]
fn test_excluded_column_drops_whole_row() {
    // The row holding an excluded column is dropped whole, even though its
    // other fields are harmless; the remaining rows pass unchanged, in order.
    let config = column_filter(vec!["^user_id$"]);
    let clean_one = row(vec![("order_name", text("chair")), ("status", text("new"))]);
    let tainted = row(vec![("order_name", text("table")), ("user_id", text("42"))]);
    let clean_two = row(vec![("order_name", text("lamp"))]);
    let rows = vec![clean_one.clone(), tainted, clean_two.clone()];

    let scrubbed = config.filter_job_results(rows);
    assert_eq!(scrubbed, vec![clean_one, clean_two]);
}

#[test]
fn test_scrubber_idempotent() {
    let config = value_filter(vec!["@"]);
    let rows = vec![
        row(vec![("email", text("user@example.com"))]),
        row(vec![("status", text("new"))]),
        row(vec![("status", text("completed"))]),
    ];
    let once = config.filter_job_results(rows);
    let twice = config.filter_job_results(once.clone());
    assert_eq!(once, twice);
    assert_eq!(once.len(), 2);
}

#[test]
fn test_no_policy_is_passthrough() {
    let config = FilterConfig::default();
    let rows = vec![
        row(vec![("card_number", text("4222 2222 2222 2222"))]),
        row(vec![("email", text("user@example.com"))]),
    ];
    let scrubbed = config.filter_job_results(rows.clone());
    assert_eq!(scrubbed, rows);
}

#[test]
fn test_non_string_values_not_value_filtered() {
    // Only string-typed leaves are checked against value patterns.
    let config = value_filter(vec!["\\d{13,16}"]);
    let numeric = row(vec![("card_number", FieldValue::Number("4222222222222222".to_string()))]);
    let boolean = row(vec![("flag", FieldValue::Bool(true))]);
    let null = row(vec![("missing", FieldValue::Null)]);
    let nested =
        row(vec![("numbers", FieldValue::Composite("[4222222222222222]".to_string()))]);
    let textual = row(vec![("card_number", text("4222222222222222"))]);
    let rows = vec![numeric.clone(), boolean.clone(), null.clone(), nested.clone(), textual];

    let scrubbed = config.filter_job_results(rows);
    assert_eq!(scrubbed, vec![numeric, boolean, null, nested]);
}

#[test]
fn test_value_scrub_keeps_clean_card_numbers() {
    // A Visa-shaped exclude pattern drops the Visa number but keeps the
    // other card number.
    let config = value_filter(vec!["^4[0-9]{12}([0-9]{3})?$"]);
    let visa = row(vec![("card_number", text("4111 1111 1111 1111"))]);
    let other = row(vec![("card_number", text("3530111333300000"))]);
    let rows = vec![visa, other.clone()];

    let scrubbed = config.filter_job_results(rows);
    assert_eq!(scrubbed, vec![other]);
}

#[test]
fn test_allowed_values_closed_world() {
    // A non-empty allow set on the value dimension drops every row whose
    // string value matches no allow pattern.
    let mut allow_rules = SqlFilterRules::default();
    allow_rules.column_value_regexes = Some(vec!["^[A-Z]{2,3}$".to_string()]);
    let mut global_filters = GlobalFilters::default();
    global_filters.sql_filters_allow = Some(vec![allow_rules]);
    let config = FilterConfig::with_global_filters(Some(&global_filters)).unwrap();

    let kept = row(vec![("country", text("US")), ("currency", text("USD"))]);
    let dropped = row(vec![("country", text("somewhere"))]);
    let rows = vec![kept.clone(), dropped];

    let scrubbed = config.filter_job_results(rows);
    assert_eq!(scrubbed, vec![kept]);
}
