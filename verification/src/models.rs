//! The data model: datasource descriptions and the queries run against them.

use vstd::prelude::*;

use crate::text::{lower_of, lowercase, str_eq};

verus! {

/// The kinds of backing store a datasource can name. Only one backend is
/// implemented; the others must fail cleanly, never silently no-op.
#[derive(Clone, Copy, PartialEq, Eq, Structural, Debug)]
pub enum DataSourceType {
    Clickhouse,
    PostgreSQL,
    MySQL,
    Prometheus,
}

/// How a configured type string parses: case-insensitive on its lowercase
/// form, unknown strings rejected.
pub open spec fn spec_parse_source_type(s: Seq<char>) -> Option<DataSourceType> {
    if lower_of(s) == "clickhouse"@ {
        Option::Some(DataSourceType::Clickhouse)
    } else if lower_of(s) == "postgresql"@ {
        Option::Some(DataSourceType::PostgreSQL)
    } else if lower_of(s) == "mysql"@ {
        Option::Some(DataSourceType::MySQL)
    } else if lower_of(s) == "prometheus"@ {
        Option::Some(DataSourceType::Prometheus)
    } else {
        Option::None
    }
}

impl DataSourceType {
    /// Parses a configured datasource type, case-insensitively; an unknown
    /// type is rejected.
    pub fn parse(s: &str) -> (r: Option<DataSourceType>)
        ensures
            r == spec_parse_source_type(s@),
    {
        let lower = lowercase(s);
        if str_eq(lower.as_str(), "clickhouse") {
            Some(DataSourceType::Clickhouse)
        } else if str_eq(lower.as_str(), "postgresql") {
            Some(DataSourceType::PostgreSQL)
        } else if str_eq(lower.as_str(), "mysql") {
            Some(DataSourceType::MySQL)
        } else if str_eq(lower.as_str(), "prometheus") {
            Some(DataSourceType::Prometheus)
        } else {
            None
        }
    }

    /// The wire name of the type.
    pub open spec fn spec_label(self) -> Seq<char> {
        match self {
            DataSourceType::Clickhouse => "clickhouse"@,
            DataSourceType::PostgreSQL => "postgresql"@,
            DataSourceType::MySQL => "mysql"@,
            DataSourceType::Prometheus => "prometheus"@,
        }
    }

    /// The wire name of the type, as reported to the server.
    pub fn label(&self) -> (r: String)
        ensures
            r@ == self.spec_label(),
    {
        match self {
            DataSourceType::Clickhouse => String::from_str("clickhouse"),
            DataSourceType::PostgreSQL => String::from_str("postgresql"),
            DataSourceType::MySQL => String::from_str("mysql"),
            DataSourceType::Prometheus => String::from_str("prometheus"),
        }
    }

    /// Whether an executor exists for this type: only the Clickhouse backend
    /// is implemented; the rest fail fast.
    pub fn has_executor(&self) -> (r: bool)
        ensures
            r == (*self is Clickhouse),
    {
        match self {
            DataSourceType::Clickhouse => true,
            _ => false,
        }
    }
}

/// One configured datasource, validated.
#[derive(Debug, PartialEq, Clone)]
pub struct DataSource {
    pub name: String,
    pub source_type: DataSourceType,
    pub hosts: Vec<String>,
    pub username: String,
    pub password: String,
    pub timeout: u64,
    pub filters: Option<Vec<String>>,
}

/// One query task as the server hands it out.
#[derive(Debug, PartialEq, Clone)]
pub struct QueryRequest {
    pub id: String,
    pub datasource_name: String,
    pub query: String,
    pub timeout: u64,
}

/// The kinds of agent the dispatch loop runs.
pub enum AgentType {
    Observation,
    Job,
}

/// The timeout applied when a datasource configures none.
pub fn default_timeout() -> (r: u64)
    ensures
        r == 60u64,
{
    60
}

/// The index of the first datasource with the given name, if any is
/// configured under it.
pub fn find_datasource(datasources: &Vec<DataSource>, name: &str) -> (r: Option<usize>)
    ensures
        match r {
            Option::Some(i) => i < datasources@.len() && datasources@[i as int].name@ == name@
                && (forall|j: int| 0 <= j < i ==> datasources@[j].name@ != name@),
            Option::None => forall|j: int|
                0 <= j < datasources@.len() ==> datasources@[j].name@ != name@,
        },
{
    let mut i: usize = 0;
    while i < datasources.len()
        invariant
            i <= datasources@.len(),
            forall|j: int| 0 <= j < i ==> datasources@[j].name@ != name@,
        decreases datasources@.len() - i,
    {
        if str_eq(datasources[i].name.as_str(), name) {
            return Some(i);
        }
        i += 1;
    }
    None
}

} // verus!
