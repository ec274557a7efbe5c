//! Statement builder for JSON-backed external tables.

use crate::options::{
    join_args, relation_statement, render_clauses, rendered_clauses, rule, rule_clause, rules_view,
    spec_args, spec_relation_statement, OptionError, OptionRule, RuleV, TableOptions, ValueStyle,
};
use vstd::prelude::*;

verus! {

/// The options recognized on a JSON-backed table.
#[derive(PartialEq, Eq, Structural, Debug)]
pub enum JsonOption {
    AutoDetect,
    Columns,
    Compression,
    ConvertStringsToIntegers,
    Dateformat,
    Filename,
    Files,
    Format,
    HivePartitioning,
    IgnoreErrors,
    MaximumDepth,
    MaximumObjectSize,
    Records,
    SampleSize,
    Select,
    Timestampformat,
    UnionByName,
}

/// The option's name as written in table options.
pub open spec fn spec_json_option_name(o: JsonOption) -> Seq<char> {
    match o {
        JsonOption::AutoDetect => "auto_detect"@,
        JsonOption::Columns => "columns"@,
        JsonOption::Compression => "compression"@,
        JsonOption::ConvertStringsToIntegers => "convert_strings_to_integers"@,
        JsonOption::Dateformat => "dateformat"@,
        JsonOption::Filename => "filename"@,
        JsonOption::Files => "files"@,
        JsonOption::Format => "format"@,
        JsonOption::HivePartitioning => "hive_partitioning"@,
        JsonOption::IgnoreErrors => "ignore_errors"@,
        JsonOption::MaximumDepth => "maximum_depth"@,
        JsonOption::MaximumObjectSize => "maximum_object_size"@,
        JsonOption::Records => "records"@,
        JsonOption::SampleSize => "sample_size"@,
        JsonOption::Select => "select"@,
        JsonOption::Timestampformat => "timestampformat"@,
        JsonOption::UnionByName => "union_by_name"@,
    }
}

impl JsonOption {
    /// The option's name as written in table options.
    pub fn as_str(&self) -> (r: &'static str)
        ensures
            r@ == spec_json_option_name(*self),
    {
        match self {
            JsonOption::AutoDetect => "auto_detect",
            JsonOption::Columns => "columns",
            JsonOption::Compression => "compression",
            JsonOption::ConvertStringsToIntegers => "convert_strings_to_integers",
            JsonOption::Dateformat => "dateformat",
            JsonOption::Filename => "filename",
            JsonOption::Files => "files",
            JsonOption::Format => "format",
            JsonOption::HivePartitioning => "hive_partitioning",
            JsonOption::IgnoreErrors => "ignore_errors",
            JsonOption::MaximumDepth => "maximum_depth",
            JsonOption::MaximumObjectSize => "maximum_object_size",
            JsonOption::Records => "records",
            JsonOption::SampleSize => "sample_size",
            JsonOption::Select => "select",
            JsonOption::Timestampformat => "timestampformat",
            JsonOption::UnionByName => "union_by_name",
        }
    }

    /// Whether the option must be present: only `files` is required.
    pub fn is_required(&self) -> (r: bool)
        ensures
            r == (*self is Files),
    {
        match self {
            JsonOption::Files => true,
            _ => false,
        }
    }
}

/// One optional `read_json` argument: `name = value`, with the value
/// single-quoted when `quote` is set. Nothing is emitted for an absent
/// option.
pub fn extract_option(option: JsonOption, table_options: &TableOptions, quote: bool) -> (r: Option<
    String,
>)
    requires
        table_options.inv(),
    ensures
        match r {
            Some(s) => {
                &&& table_options@.contains_key(spec_json_option_name(option))
                &&& s@ == rule_clause(
                    RuleV {
                        key: spec_json_option_name(option),
                        label: spec_json_option_name(option),
                        eq: " = "@,
                        style: if quote {
                            ValueStyle::Quoted
                        } else {
                            ValueStyle::Bare
                        },
                    },
                    table_options@[spec_json_option_name(option)],
                )
            },
            None => !table_options@.contains_key(spec_json_option_name(option)),
        },
{
    let name = option.as_str();
    let style = if quote {
        ValueStyle::Quoted
    } else {
        ValueStyle::Bare
    };
    match table_options.get(name) {
        Some(v) => {
            let the_rule = rule(name, name, " = ", style);
            let mut out = String::new();
            out.append(the_rule.label.as_str());
            out.append(the_rule.eq.as_str());
            match style {
                ValueStyle::Quoted => {
                    let cs = crate::text::str_chars(v.as_str());
                    let q = crate::text::quote_piece(&cs);
                    out.append(q.as_str());
                },
                _ => {
                    out.append(v.as_str());
                },
            }
            Some(out)
        },
        None => None,
    }
}

/// The rendering rules of `read_json` arguments, in output order.
pub open spec fn spec_json_rules() -> Seq<RuleV> {
    seq![
        RuleV { key: "files"@, label: ""@, eq: ""@, style: ValueStyle::CsvList },
        RuleV { key: "auto_detect"@, label: "auto_detect"@, eq: " = "@, style: ValueStyle::Bare },
        RuleV { key: "columns"@, label: "columns"@, eq: " = "@, style: ValueStyle::Bare },
        RuleV { key: "compression"@, label: "compression"@, eq: " = "@, style: ValueStyle::Quoted },
        RuleV {
            key: "convert_strings_to_integers"@,
            label: "convert_strings_to_integers"@,
            eq: " = "@,
            style: ValueStyle::Bare,
        },
        RuleV { key: "dateformat"@, label: "dateformat"@, eq: " = "@, style: ValueStyle::Quoted },
        RuleV { key: "filename"@, label: "filename"@, eq: " = "@, style: ValueStyle::Bare },
        RuleV { key: "format"@, label: "format"@, eq: " = "@, style: ValueStyle::Quoted },
        RuleV {
            key: "hive_partitioning"@,
            label: "hive_partitioning"@,
            eq: " = "@,
            style: ValueStyle::Bare,
        },
        RuleV {
            key: "ignore_errors"@,
            label: "ignore_errors"@,
            eq: " = "@,
            style: ValueStyle::Bare,
        },
        RuleV {
            key: "maximum_depth"@,
            label: "maximum_depth"@,
            eq: " = "@,
            style: ValueStyle::Bare,
        },
        RuleV {
            key: "maximum_object_size"@,
            label: "maximum_object_size"@,
            eq: " = "@,
            style: ValueStyle::Bare,
        },
        RuleV { key: "records"@, label: "records"@, eq: " = "@, style: ValueStyle::Bare },
        RuleV { key: "sample_size"@, label: "sample_size"@, eq: " = "@, style: ValueStyle::Bare },
        RuleV {
            key: "timestampformat"@,
            label: "timestampformat"@,
            eq: " = "@,
            style: ValueStyle::Quoted,
        },
        RuleV {
            key: "union_by_name"@,
            label: "union_by_name"@,
            eq: " = "@,
            style: ValueStyle::Bare,
        },
    ]
}

fn json_rules() -> (r: Vec<OptionRule>)
    ensures
        rules_view(r@) == spec_json_rules(),
{
    let mut r: Vec<OptionRule> = Vec::new();
    r.push(rule("files", "", "", ValueStyle::CsvList));
    r.push(rule("auto_detect", "auto_detect", " = ", ValueStyle::Bare));
    r.push(rule("columns", "columns", " = ", ValueStyle::Bare));
    r.push(rule("compression", "compression", " = ", ValueStyle::Quoted));
    r.push(
        rule("convert_strings_to_integers", "convert_strings_to_integers", " = ", ValueStyle::Bare),
    );
    r.push(rule("dateformat", "dateformat", " = ", ValueStyle::Quoted));
    r.push(rule("filename", "filename", " = ", ValueStyle::Bare));
    r.push(rule("format", "format", " = ", ValueStyle::Quoted));
    r.push(rule("hive_partitioning", "hive_partitioning", " = ", ValueStyle::Bare));
    r.push(rule("ignore_errors", "ignore_errors", " = ", ValueStyle::Bare));
    r.push(rule("maximum_depth", "maximum_depth", " = ", ValueStyle::Bare));
    r.push(rule("maximum_object_size", "maximum_object_size", " = ", ValueStyle::Bare));
    r.push(rule("records", "records", " = ", ValueStyle::Bare));
    r.push(rule("sample_size", "sample_size", " = ", ValueStyle::Bare));
    r.push(rule("timestampformat", "timestampformat", " = ", ValueStyle::Quoted));
    r.push(rule("union_by_name", "union_by_name", " = ", ValueStyle::Bare));
    proof {
        assert(rules_view(r@) =~~= spec_json_rules());
    }
    r
}

/// The select list of the created view: the `select` option, or `*`.
pub open spec fn spec_select_list(m: Map<Seq<char>, Seq<char>>) -> Seq<char> {
    if m.contains_key("select"@) {
        m["select"@]
    } else {
        "*"@
    }
}

/// The `select` option's value, or `*`.
pub fn select_list(opts: &TableOptions) -> (r: String)
    requires
        opts.inv(),
    ensures
        r@ == spec_select_list(opts@),
{
    match opts.get("select") {
        Some(v) => v,
        None => String::from_str("*"),
    }
}

/// The full statement registering a JSON-backed view with the engine.
pub open spec fn spec_json_statement(
    table: Seq<char>,
    schema: Seq<char>,
    m: Map<Seq<char>, Seq<char>>,
) -> Seq<char> {
    spec_relation_statement(
        "VIEW"@,
        schema,
        table,
        spec_select_list(m),
        "read_json"@,
        spec_args(rendered_clauses(spec_json_rules(), m)),
    )
}

/// Builds the statement that registers a JSON-backed view over `read_json`
/// with the embedded engine. Fails exactly when the required `files`
/// option is absent.
pub fn create_view(table_name: &str, schema_name: &str, table_options: &TableOptions) -> (r: Result<
    String,
    OptionError,
>)
    requires
        table_options.inv(),
    ensures
        match r {
            Ok(s) => table_options@.contains_key("files"@) && s@ == spec_json_statement(
                table_name@,
                schema_name@,
                table_options@,
            ),
            Err(e) => !table_options@.contains_key("files"@) && e == OptionError::MissingFiles,
        },
{
    if !table_options.contains("files") {
        return Err(OptionError::MissingFiles);
    }
    let rules = json_rules();
    let clauses = render_clauses(&rules, table_options);
    let args = join_args(&clauses);
    let select = select_list(table_options);
    Ok(
        relation_statement(
            "VIEW",
            schema_name,
            table_name,
            select.as_str(),
            "read_json",
            args.as_str(),
        ),
    )
}

} // verus!
