//! Statement builder for CSV-backed external tables: the recognized option
//! names and the `CREATE ... AS SELECT * FROM read_csv(...)` statement text.

use crate::options::{
    join_args, relation_statement, render_clauses, rendered_clauses, rule, rules_view, spec_args,
    spec_relation_statement, OptionError, OptionRule, RuleV, TableOptions, ValueStyle,
};
use crate::text::eq_ignore_ascii_case_spec;
use crate::text::eq_ignore_case;
use vstd::prelude::*;

verus! {

/// The options recognized on a CSV-backed table.
#[derive(PartialEq, Eq, Structural, Debug)]
pub enum CsvOption {
    AllVarchar,
    AllowQuotedNulls,
    AutoDetect,
    AutoTypeCandidates,
    Cache,
    Columns,
    Compression,
    Dateformat,
    DecimalSeparator,
    Delim,
    Escape,
    Filename,
    Files,
    ForceNotNull,
    Header,
    HivePartitioning,
    HiveTypes,
    HiveTypesAutocast,
    IgnoreErrors,
    MaxLineSize,
    Names,
    NewLine,
    NormalizeNames,
    NullPadding,
    Nullstr,
    Parallel,
    PreserveCasing,
    Quote,
    SampleSize,
    Select,
    Sep,
    Skip,
    Timestampformat,
    Types,
    UnionByName,
}

/// The option's name as written in table options.
pub open spec fn spec_csv_option_name(o: CsvOption) -> Seq<char> {
    match o {
        CsvOption::AllVarchar => "all_varchar"@,
        CsvOption::AllowQuotedNulls => "allow_quoted_nulls"@,
        CsvOption::AutoDetect => "auto_detect"@,
        CsvOption::AutoTypeCandidates => "auto_type_candidates"@,
        CsvOption::Cache => "cache"@,
        CsvOption::Columns => "columns"@,
        CsvOption::Compression => "compression"@,
        CsvOption::Dateformat => "dateformat"@,
        CsvOption::DecimalSeparator => "decimal_separator"@,
        CsvOption::Delim => "delim"@,
        CsvOption::Escape => "escape"@,
        CsvOption::Filename => "filename"@,
        CsvOption::Files => "files"@,
        CsvOption::ForceNotNull => "force_not_null"@,
        CsvOption::Header => "header"@,
        CsvOption::HivePartitioning => "hive_partitioning"@,
        CsvOption::HiveTypes => "hive_types"@,
        CsvOption::HiveTypesAutocast => "hive_types_autocast"@,
        CsvOption::IgnoreErrors => "ignore_errors"@,
        CsvOption::MaxLineSize => "max_line_size"@,
        CsvOption::Names => "names"@,
        CsvOption::NewLine => "new_line"@,
        CsvOption::NormalizeNames => "normalize_names"@,
        CsvOption::NullPadding => "null_padding"@,
        CsvOption::Nullstr => "nullstr"@,
        CsvOption::Parallel => "parallel"@,
        CsvOption::PreserveCasing => "preserve_casing"@,
        CsvOption::Quote => "quote"@,
        CsvOption::SampleSize => "sample_size"@,
        CsvOption::Select => "select"@,
        CsvOption::Sep => "sep"@,
        CsvOption::Skip => "skip"@,
        CsvOption::Timestampformat => "timestampformat"@,
        CsvOption::Types => "types"@,
        CsvOption::UnionByName => "union_by_name"@,
    }
}

impl CsvOption {
    /// The option's name as written in table options.
    pub fn as_str(&self) -> (r: &'static str)
        ensures
            r@ == spec_csv_option_name(*self),
    {
        match self {
            CsvOption::AllVarchar => "all_varchar",
            CsvOption::AllowQuotedNulls => "allow_quoted_nulls",
            CsvOption::AutoDetect => "auto_detect",
            CsvOption::AutoTypeCandidates => "auto_type_candidates",
            CsvOption::Cache => "cache",
            CsvOption::Columns => "columns",
            CsvOption::Compression => "compression",
            CsvOption::Dateformat => "dateformat",
            CsvOption::DecimalSeparator => "decimal_separator",
            CsvOption::Delim => "delim",
            CsvOption::Escape => "escape",
            CsvOption::Filename => "filename",
            CsvOption::Files => "files",
            CsvOption::ForceNotNull => "force_not_null",
            CsvOption::Header => "header",
            CsvOption::HivePartitioning => "hive_partitioning",
            CsvOption::HiveTypes => "hive_types",
            CsvOption::HiveTypesAutocast => "hive_types_autocast",
            CsvOption::IgnoreErrors => "ignore_errors",
            CsvOption::MaxLineSize => "max_line_size",
            CsvOption::Names => "names",
            CsvOption::NewLine => "new_line",
            CsvOption::NormalizeNames => "normalize_names",
            CsvOption::NullPadding => "null_padding",
            CsvOption::Nullstr => "nullstr",
            CsvOption::Parallel => "parallel",
            CsvOption::PreserveCasing => "preserve_casing",
            CsvOption::Quote => "quote",
            CsvOption::SampleSize => "sample_size",
            CsvOption::Select => "select",
            CsvOption::Sep => "sep",
            CsvOption::Skip => "skip",
            CsvOption::Timestampformat => "timestampformat",
            CsvOption::Types => "types",
            CsvOption::UnionByName => "union_by_name",
        }
    }

    /// Whether the option must be present: only `files` is required.
    pub fn is_required(&self) -> (r: bool)
        ensures
            r == (*self is Files),
    {
        match self {
            CsvOption::Files => true,
            _ => false,
        }
    }
}

/// The rendering rules of `read_csv` arguments, in output order: the file
/// list first, then each recognized option as `name = value`, quoted or
/// list-rendered where the reader expects a string or a list.
pub open spec fn spec_csv_rules() -> Seq<RuleV> {
    seq![
        RuleV { key: "files"@, label: ""@, eq: ""@, style: ValueStyle::CsvList },
        RuleV { key: "all_varchar"@, label: "all_varchar"@, eq: " = "@, style: ValueStyle::Bare },
        RuleV {
            key: "allow_quoted_nulls"@,
            label: "allow_quoted_nulls"@,
            eq: " = "@,
            style: ValueStyle::Bare,
        },
        RuleV { key: "auto_detect"@, label: "auto_detect"@, eq: " = "@, style: ValueStyle::Bare },
        RuleV {
            key: "auto_type_candidates"@,
            label: "auto_type_candidates"@,
            eq: " = "@,
            style: ValueStyle::CsvList,
        },
        RuleV { key: "columns"@, label: "columns"@, eq: " = "@, style: ValueStyle::Bare },
        RuleV { key: "compression"@, label: "compression"@, eq: " = "@, style: ValueStyle::Quoted },
        RuleV { key: "dateformat"@, label: "dateformat"@, eq: " = "@, style: ValueStyle::Quoted },
        RuleV {
            key: "decimal_separator"@,
            label: "decimal_separator"@,
            eq: " = "@,
            style: ValueStyle::Quoted,
        },
        RuleV { key: "delim"@, label: "delim"@, eq: " = "@, style: ValueStyle::Quoted },
        RuleV { key: "escape"@, label: "escape"@, eq: " = "@, style: ValueStyle::Quoted },
        RuleV { key: "filename"@, label: "filename"@, eq: " = "@, style: ValueStyle::Bare },
        RuleV {
            key: "force_not_null"@,
            label: "force_not_null"@,
            eq: " = "@,
            style: ValueStyle::CsvList,
        },
        RuleV { key: "header"@, label: "header"@, eq: " = "@, style: ValueStyle::Bare },
        RuleV {
            key: "hive_partitioning"@,
            label: "hive_partitioning"@,
            eq: " = "@,
            style: ValueStyle::Bare,
        },
        RuleV { key: "hive_types"@, label: "hive_types"@, eq: " = "@, style: ValueStyle::Bare },
        RuleV {
            key: "hive_types_autocast"@,
            label: "hive_types_autocast"@,
            eq: " = "@,
            style: ValueStyle::Bare,
        },
        RuleV {
            key: "ignore_errors"@,
            label: "ignore_errors"@,
            eq: " = "@,
            style: ValueStyle::Bare,
        },
        RuleV {
            key: "max_line_size"@,
            label: "max_line_size"@,
            eq: " = "@,
            style: ValueStyle::Bare,
        },
        RuleV { key: "names"@, label: "names"@, eq: " = "@, style: ValueStyle::CsvList },
        RuleV { key: "new_line"@, label: "new_line"@, eq: " = "@, style: ValueStyle::Quoted },
        RuleV {
            key: "normalize_names"@,
            label: "normalize_names"@,
            eq: " = "@,
            style: ValueStyle::Bare,
        },
        RuleV { key: "null_padding"@, label: "null_padding"@, eq: " = "@, style: ValueStyle::Bare },
        RuleV { key: "nullstr"@, label: "nullstr"@, eq: " = "@, style: ValueStyle::CsvList },
        RuleV { key: "parallel"@, label: "parallel"@, eq: " = "@, style: ValueStyle::Bare },
        RuleV { key: "quote"@, label: "quote"@, eq: " = "@, style: ValueStyle::Quoted },
        RuleV { key: "sample_size"@, label: "sample_size"@, eq: " = "@, style: ValueStyle::Bare },
        RuleV { key: "sep"@, label: "sep"@, eq: " = "@, style: ValueStyle::Quoted },
        RuleV { key: "skip"@, label: "skip"@, eq: " = "@, style: ValueStyle::Bare },
        RuleV {
            key: "timestampformat"@,
            label: "timestampformat"@,
            eq: " = "@,
            style: ValueStyle::Quoted,
        },
        RuleV { key: "types"@, label: "types"@, eq: " = "@, style: ValueStyle::CsvList },
        RuleV {
            key: "union_by_name"@,
            label: "union_by_name"@,
            eq: " = "@,
            style: ValueStyle::Bare,
        },
    ]
}

fn csv_rules() -> (r: Vec<OptionRule>)
    ensures
        rules_view(r@) == spec_csv_rules(),
{
    let mut r: Vec<OptionRule> = Vec::new();
    r.push(rule("files", "", "", ValueStyle::CsvList));
    r.push(rule("all_varchar", "all_varchar", " = ", ValueStyle::Bare));
    r.push(rule("allow_quoted_nulls", "allow_quoted_nulls", " = ", ValueStyle::Bare));
    r.push(rule("auto_detect", "auto_detect", " = ", ValueStyle::Bare));
    r.push(rule("auto_type_candidates", "auto_type_candidates", " = ", ValueStyle::CsvList));
    r.push(rule("columns", "columns", " = ", ValueStyle::Bare));
    r.push(rule("compression", "compression", " = ", ValueStyle::Quoted));
    r.push(rule("dateformat", "dateformat", " = ", ValueStyle::Quoted));
    r.push(rule("decimal_separator", "decimal_separator", " = ", ValueStyle::Quoted));
    r.push(rule("delim", "delim", " = ", ValueStyle::Quoted));
    r.push(rule("escape", "escape", " = ", ValueStyle::Quoted));
    r.push(rule("filename", "filename", " = ", ValueStyle::Bare));
    r.push(rule("force_not_null", "force_not_null", " = ", ValueStyle::CsvList));
    r.push(rule("header", "header", " = ", ValueStyle::Bare));
    r.push(rule("hive_partitioning", "hive_partitioning", " = ", ValueStyle::Bare));
    r.push(rule("hive_types", "hive_types", " = ", ValueStyle::Bare));
    r.push(rule("hive_types_autocast", "hive_types_autocast", " = ", ValueStyle::Bare));
    r.push(rule("ignore_errors", "ignore_errors", " = ", ValueStyle::Bare));
    r.push(rule("max_line_size", "max_line_size", " = ", ValueStyle::Bare));
    r.push(rule("names", "names", " = ", ValueStyle::CsvList));
    r.push(rule("new_line", "new_line", " = ", ValueStyle::Quoted));
    r.push(rule("normalize_names", "normalize_names", " = ", ValueStyle::Bare));
    r.push(rule("null_padding", "null_padding", " = ", ValueStyle::Bare));
    r.push(rule("nullstr", "nullstr", " = ", ValueStyle::CsvList));
    r.push(rule("parallel", "parallel", " = ", ValueStyle::Bare));
    r.push(rule("quote", "quote", " = ", ValueStyle::Quoted));
    r.push(rule("sample_size", "sample_size", " = ", ValueStyle::Bare));
    r.push(rule("sep", "sep", " = ", ValueStyle::Quoted));
    r.push(rule("skip", "skip", " = ", ValueStyle::Bare));
    r.push(rule("timestampformat", "timestampformat", " = ", ValueStyle::Quoted));
    r.push(rule("types", "types", " = ", ValueStyle::CsvList));
    r.push(rule("union_by_name", "union_by_name", " = ", ValueStyle::Bare));
    proof {
        assert(rules_view(r@) =~~= spec_csv_rules());
    }
    r
}

/// Whether the `cache` option asks for a materialized table: its value is
/// `true` up to ASCII case.
pub open spec fn spec_cache_requested(m: Map<Seq<char>, Seq<char>>) -> bool {
    m.contains_key("cache"@) && eq_ignore_ascii_case_spec(m["cache"@], "true"@)
}

/// Tests whether the `cache` option asks for a materialized table.
pub fn cache_requested(opts: &TableOptions) -> (r: bool)
    requires
        opts.inv(),
    ensures
        r == spec_cache_requested(opts@),
{
    match opts.get("cache") {
        Some(v) => eq_ignore_case(v.as_str(), "true"),
        None => false,
    }
}

/// `TABLE` when caching is requested, `VIEW` otherwise.
pub open spec fn spec_relation_kind(m: Map<Seq<char>, Seq<char>>) -> Seq<char> {
    if spec_cache_requested(m) {
        "TABLE"@
    } else {
        "VIEW"@
    }
}

/// The full statement registering a CSV-backed relation with the engine.
pub open spec fn spec_csv_statement(
    table: Seq<char>,
    schema: Seq<char>,
    m: Map<Seq<char>, Seq<char>>,
) -> Seq<char> {
    spec_relation_statement(
        spec_relation_kind(m),
        schema,
        table,
        "*"@,
        "read_csv"@,
        spec_args(rendered_clauses(spec_csv_rules(), m)),
    )
}

/// Builds the statement that registers a CSV-backed relation with the
/// embedded engine: a view over `read_csv`, or a materialized table when
/// the `cache` option is `true`. Fails exactly when the required `files`
/// option is absent.
pub fn create_duckdb_relation(
    table_name: &str,
    schema_name: &str,
    table_options: &TableOptions,
) -> (r: Result<String, OptionError>)
    requires
        table_options.inv(),
    ensures
        match r {
            Ok(s) => table_options@.contains_key("files"@) && s@ == spec_csv_statement(
                table_name@,
                schema_name@,
                table_options@,
            ),
            Err(e) => !table_options@.contains_key("files"@) && e == OptionError::MissingFiles,
        },
{
    if !table_options.contains("files") {
        return Err(OptionError::MissingFiles);
    }
    let rules = csv_rules();
    let clauses = render_clauses(&rules, table_options);
    let args = join_args(&clauses);
    let relation: &'static str = if cache_requested(table_options) {
        "TABLE"
    } else {
        "VIEW"
    };
    Ok(relation_statement(relation, schema_name, table_name, "*", "read_csv", args.as_str()))
}

} // verus!
