//! Statement builder for Parquet-backed external tables.

use crate::csv::{cache_requested, spec_relation_kind};
use crate::options::{
    join_args, relation_statement, render_clauses, rendered_clauses, rule, rules_view, spec_args,
    spec_relation_statement, OptionError, OptionRule, RuleV, TableOptions, ValueStyle,
};
use vstd::prelude::*;

verus! {

/// The options recognized on a Parquet-backed table.
#[derive(PartialEq, Eq, Structural, Debug)]
pub enum ParquetOption {
    BinaryAsString,
    Cache,
    FileName,
    FileRowNumber,
    Files,
    HivePartitioning,
    HiveTypes,
    HiveTypesAutocast,
    PreserveCasing,
    UnionByName,
    Select,
}

/// The option's name as written in table options.
pub open spec fn spec_parquet_option_name(o: ParquetOption) -> Seq<char> {
    match o {
        ParquetOption::BinaryAsString => "binary_as_string"@,
        ParquetOption::Cache => "cache"@,
        ParquetOption::FileName => "file_name"@,
        ParquetOption::FileRowNumber => "file_row_number"@,
        ParquetOption::Files => "files"@,
        ParquetOption::HivePartitioning => "hive_partitioning"@,
        ParquetOption::HiveTypes => "hive_types"@,
        ParquetOption::HiveTypesAutocast => "hive_types_autocast"@,
        ParquetOption::PreserveCasing => "preserve_casing"@,
        ParquetOption::UnionByName => "union_by_name"@,
        ParquetOption::Select => "select"@,
    }
}

impl ParquetOption {
    /// The option's name as written in table options.
    pub fn as_str(&self) -> (r: &'static str)
        ensures
            r@ == spec_parquet_option_name(*self),
    {
        match self {
            ParquetOption::BinaryAsString => "binary_as_string",
            ParquetOption::Cache => "cache",
            ParquetOption::FileName => "file_name",
            ParquetOption::FileRowNumber => "file_row_number",
            ParquetOption::Files => "files",
            ParquetOption::HivePartitioning => "hive_partitioning",
            ParquetOption::HiveTypes => "hive_types",
            ParquetOption::HiveTypesAutocast => "hive_types_autocast",
            ParquetOption::PreserveCasing => "preserve_casing",
            ParquetOption::UnionByName => "union_by_name",
            ParquetOption::Select => "select",
        }
    }

    /// Whether the option must be present: only `files` is required.
    pub fn is_required(&self) -> (r: bool)
        ensures
            r == (*self is Files),
    {
        match self {
            ParquetOption::Files => true,
            _ => false,
        }
    }
}

/// The rendering rules of `read_parquet` arguments, in output order. The
/// `file_name` option is rendered under the reader's own `filename` name.
pub open spec fn spec_parquet_rules() -> Seq<RuleV> {
    seq![
        RuleV { key: "files"@, label: ""@, eq: ""@, style: ValueStyle::CsvList },
        RuleV {
            key: "binary_as_string"@,
            label: "binary_as_string"@,
            eq: " = "@,
            style: ValueStyle::Bare,
        },
        RuleV { key: "file_name"@, label: "filename"@, eq: " = "@, style: ValueStyle::Bare },
        RuleV {
            key: "file_row_number"@,
            label: "file_row_number"@,
            eq: " = "@,
            style: ValueStyle::Bare,
        },
        RuleV {
            key: "hive_partitioning"@,
            label: "hive_partitioning"@,
            eq: " = "@,
            style: ValueStyle::Bare,
        },
        RuleV { key: "hive_types"@, label: "hive_types"@, eq: " = "@, style: ValueStyle::Bare },
        RuleV {
            key: "hive_types_autocast"@,
            label: "hive_types_autocast"@,
            eq: " = "@,
            style: ValueStyle::Bare,
        },
        RuleV {
            key: "union_by_name"@,
            label: "union_by_name"@,
            eq: " = "@,
            style: ValueStyle::Bare,
        },
    ]
}

fn parquet_rules() -> (r: Vec<OptionRule>)
    ensures
        rules_view(r@) == spec_parquet_rules(),
{
    let mut r: Vec<OptionRule> = Vec::new();
    r.push(rule("files", "", "", ValueStyle::CsvList));
    r.push(rule("binary_as_string", "binary_as_string", " = ", ValueStyle::Bare));
    r.push(rule("file_name", "filename", " = ", ValueStyle::Bare));
    r.push(rule("file_row_number", "file_row_number", " = ", ValueStyle::Bare));
    r.push(rule("hive_partitioning", "hive_partitioning", " = ", ValueStyle::Bare));
    r.push(rule("hive_types", "hive_types", " = ", ValueStyle::Bare));
    r.push(rule("hive_types_autocast", "hive_types_autocast", " = ", ValueStyle::Bare));
    r.push(rule("union_by_name", "union_by_name", " = ", ValueStyle::Bare));
    proof {
        assert(rules_view(r@) =~~= spec_parquet_rules());
    }
    r
}

/// The full statement registering a Parquet-backed relation with the
/// engine.
pub open spec fn spec_parquet_statement(
    table: Seq<char>,
    schema: Seq<char>,
    m: Map<Seq<char>, Seq<char>>,
) -> Seq<char> {
    spec_relation_statement(
        spec_relation_kind(m),
        schema,
        table,
        "*"@,
        "read_parquet"@,
        spec_args(rendered_clauses(spec_parquet_rules(), m)),
    )
}

/// Builds the statement that registers a Parquet-backed relation with the
/// embedded engine: a view over `read_parquet`, or a materialized table
/// when the `cache` option is `true`. Fails exactly when the required
/// `files` option is absent.
pub fn create_duckdb_relation(
    table_name: &str,
    schema_name: &str,
    table_options: &TableOptions,
) -> (r: Result<String, OptionError>)
    requires
        table_options.inv(),
    ensures
        match r {
            Ok(s) => table_options@.contains_key("files"@) && s@ == spec_parquet_statement(
                table_name@,
                schema_name@,
                table_options@,
            ),
            Err(e) => !table_options@.contains_key("files"@) && e == OptionError::MissingFiles,
        },
{
    if !table_options.contains("files") {
        return Err(OptionError::MissingFiles);
    }
    let rules = parquet_rules();
    let clauses = render_clauses(&rules, table_options);
    let args = join_args(&clauses);
    let relation: &'static str = if cache_requested(table_options) {
        "TABLE"
    } else {
        "VIEW"
    };
    Ok(relation_statement(relation, schema_name, table_name, "*", "read_parquet", args.as_str()))
}

/// The engine query behind the Parquet schema introspection table.
pub open spec fn spec_parquet_schema_query(files: Seq<char>) -> Seq<char> {
    "SELECT * FROM parquet_schema("@ + crate::text::spec_format_csv(files) + ")"@
}

/// Builds the engine query that lists a Parquet relation's file schema;
/// `files` is the relation's comma-separated file list.
pub fn parquet_schema_query(files: &str) -> (r: String)
    ensures
        r@ == spec_parquet_schema_query(files@),
{
    let mut out = String::from_str("SELECT * FROM parquet_schema(");
    let f = crate::text::format_csv(files);
    out.append(f.as_str());
    out.append(")");
    out
}

/// The engine query behind the Parquet column description table.
pub open spec fn spec_parquet_describe_query(files: Seq<char>) -> Seq<char> {
    "DESCRIBE SELECT * FROM "@ + crate::text::spec_format_csv(files)
}

/// Builds the engine query that describes a Parquet relation's columns;
/// `files` is the relation's comma-separated file list.
pub fn parquet_describe_query(files: &str) -> (r: String)
    ensures
        r@ == spec_parquet_describe_query(files@),
{
    let mut out = String::from_str("DESCRIBE SELECT * FROM ");
    let f = crate::text::format_csv(files);
    out.append(f.as_str());
    out
}

} // verus!
