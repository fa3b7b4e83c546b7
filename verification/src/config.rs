//! Configuration data as the engine consumes it: plain values only.
//!
//! Reading a configuration file and deserializing it is the shell's business;
//! the engine receives the raw shapes below and validates them.

use vstd::prelude::*;

use crate::models::{default_timeout, spec_parse_source_type, DataSource, DataSourceType};

verus! {

/// One block of raw filter rules: optional regex pattern lists per dimension.
/// An absent list means "no constraint" for that dimension.
#[derive(Debug, PartialEq, Clone)]
pub struct SqlFilterRules {
    pub database_regexes: Option<Vec<String>>,
    pub table_regexes: Option<Vec<String>>,
    pub column_name_regexes: Option<Vec<String>>,
    pub column_value_regexes: Option<Vec<String>>,
}

impl Default for SqlFilterRules {
    /// A block with no constraint in any dimension.
    fn default() -> (r: Self)
        ensures
            r.database_regexes is None,
            r.table_regexes is None,
            r.column_name_regexes is None,
            r.column_value_regexes is None,
    {
        SqlFilterRules {
            database_regexes: None,
            table_regexes: None,
            column_name_regexes: None,
            column_value_regexes: None,
        }
    }
}

/// The two optional rule-block lists: exclude rules and allow rules.
#[derive(Debug, PartialEq, Clone)]
pub struct GlobalFilters {
    pub sql_filters_exclude: Option<Vec<SqlFilterRules>>,
    pub sql_filters_allow: Option<Vec<SqlFilterRules>>,
}

impl Default for GlobalFilters {
    /// No rules in either direction.
    fn default() -> (r: Self)
        ensures
            r.sql_filters_exclude is None,
            r.sql_filters_allow is None,
    {
        GlobalFilters { sql_filters_exclude: None, sql_filters_allow: None }
    }
}

/// Where the agent reports to.
#[derive(Debug, PartialEq, Clone)]
pub struct ServerConfig {
    pub api_key: String,
    pub server_url: String,
}

/// A configuration failure.
#[derive(Debug, PartialEq, Clone)]
pub enum ConfigError {
    /// No configuration was found at any expected location.
    NotFound,
    /// A datasource names a type the agent does not know.
    UnknownSourceType { datasource: String, value: String },
}

/// One datasource as the configuration file spells it, before validation.
#[derive(Debug, PartialEq, Clone)]
pub struct RawDataSource {
    pub name: String,
    pub source_type: String,
    pub hosts: Vec<String>,
    pub username: String,
    pub password: String,
    pub timeout: Option<u64>,
    pub filters: Option<Vec<String>>,
}

/// A whole configuration as the file spells it, before validation.
#[derive(Debug, PartialEq, Clone)]
pub struct RawConfig {
    pub server: ServerConfig,
    pub datasources: Vec<RawDataSource>,
    pub global_filters: Option<GlobalFilters>,
}

/// The validated configuration the agent runs under.
#[derive(Debug, Clone)]
pub struct Config {
    pub server: ServerConfig,
    pub datasources: Vec<DataSource>,
    pub global_filters: Option<GlobalFilters>,
}

/// Whether the raw datasource names a known source type.
pub open spec fn spec_source_known(ds: RawDataSource) -> bool {
    spec_parse_source_type(ds.source_type@) is Some
}

/// Whether every configured datasource names a known source type.
pub open spec fn spec_all_sources_known(raw: RawConfig) -> bool {
    forall|i: int|
        0 <= i < raw.datasources@.len() ==> spec_source_known(#[trigger] raw.datasources@[i])
}

/// The timeout a raw datasource resolves to.
pub open spec fn spec_timeout_or_default(t: Option<u64>) -> u64 {
    match t {
        Option::Some(v) => v,
        Option::None => 60,
    }
}

/// How one validated datasource relates to its raw form: every field
/// carried over, the type parsed, the timeout defaulted when absent.
pub open spec fn spec_validated_source(ds: RawDataSource, out: DataSource) -> bool {
    &&& out.name == ds.name
    &&& Option::Some(out.source_type) == spec_parse_source_type(ds.source_type@)
    &&& out.hosts == ds.hosts
    &&& out.username == ds.username
    &&& out.password == ds.password
    &&& out.timeout == spec_timeout_or_default(ds.timeout)
    &&& out.filters == ds.filters
}

/// How a validated configuration relates to its raw form.
pub open spec fn spec_validated(raw: RawConfig, c: Config) -> bool {
    &&& c.server == raw.server
    &&& c.global_filters == raw.global_filters
    &&& c.datasources@.len() == raw.datasources@.len()
    &&& forall|i: int|
        0 <= i < raw.datasources@.len() ==> spec_validated_source(
            raw.datasources@[i],
            #[trigger] c.datasources@[i],
        )
}

impl Config {
    /// Validates a raw configuration: parses each datasource's type and
    /// applies the default timeout. Fails on the first datasource whose type
    /// is unknown, naming it.
    pub fn load(raw: RawConfig) -> (r: Result<Config, ConfigError>)
        ensures
            r is Ok <==> spec_all_sources_known(raw),
            r is Ok ==> spec_validated(raw, r->Ok_0),
            r is Err ==> (match r->Err_0 {
                ConfigError::UnknownSourceType { datasource, value } => exists|i: int|
                    0 <= i < raw.datasources@.len() && (#[trigger] raw.datasources@[i]).name@
                        == datasource@ && raw.datasources@[i].source_type@ == value@
                        && spec_parse_source_type(value@) is None,
                ConfigError::NotFound => false,
            }),
    {
        let RawConfig { server, datasources, global_filters } = raw;
        let ghost orig = datasources@;
        let mut datasources = datasources;
        let mut validated: Vec<DataSource> = Vec::new();
        let ghost mut k: int = 0;
        while datasources.len() > 0
            invariant
                0 <= k <= orig.len(),
                orig == raw.datasources@,
                datasources@ == orig.skip(k),
                validated@.len() == k,
                forall|i: int|
                    0 <= i < k ==> spec_validated_source(orig[i], #[trigger] validated@[i]),
            decreases datasources@.len(),
        {
            let ds = datasources.remove(0);
            proof {
                assert(ds == orig[k]);
            }
            let RawDataSource { name, source_type, hosts, username, password, timeout, filters } =
                ds;
            match DataSourceType::parse(source_type.as_str()) {
                Some(st) => {
                    let t = match timeout {
                        Some(t) => t,
                        None => default_timeout(),
                    };
                    validated.push(
                        DataSource {
                            name,
                            source_type: st,
                            hosts,
                            username,
                            password,
                            timeout: t,
                            filters,
                        },
                    );
                },
                None => {
                    return Err(ConfigError::UnknownSourceType { datasource: name, value: source_type });
                },
            }
            proof {
                k = k + 1;
                assert(datasources@ =~= orig.skip(k));
            }
        }
        proof {
            assert forall|i: int| 0 <= i < raw.datasources@.len() implies spec_source_known(
                #[trigger] raw.datasources@[i],
            ) by {
                assert(spec_validated_source(orig[i], validated@[i]));
            }
        }
        Ok(Config { server, datasources: validated, global_filters })
    }
}

/// Decides which configuration the agent uses: the system location first,
/// then the local file, and validates whichever was found; with neither, the
/// configuration is missing.
pub fn load_config(system_config: Option<RawConfig>, local_config: Option<RawConfig>) -> (r: Result<
    Config,
    ConfigError,
>)
    ensures
        (match system_config {
            Option::Some(raw) => (r is Ok <==> spec_all_sources_known(raw)) && (r is Ok
                ==> spec_validated(raw, r->Ok_0)) && (r is Err
                ==> r->Err_0 is UnknownSourceType),
            Option::None => match local_config {
                Option::Some(raw) => (r is Ok <==> spec_all_sources_known(raw)) && (r is Ok
                    ==> spec_validated(raw, r->Ok_0)) && (r is Err
                    ==> r->Err_0 is UnknownSourceType),
                Option::None => r is Err && r->Err_0 is NotFound,
            },
        }),
{
    match system_config {
        Some(raw) => Config::load(raw),
        None => match local_config {
            Some(raw) => Config::load(raw),
            None => Err(ConfigError::NotFound),
        },
    }
}

} // verus!
