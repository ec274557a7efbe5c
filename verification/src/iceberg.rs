//! Statement builder for Iceberg-backed external tables.

use crate::json::{select_list, spec_select_list};
use crate::options::{
    join_args, relation_statement, render_clauses, rendered_clauses, rule, rules_view, spec_args,
    spec_relation_statement, OptionError, OptionRule, RuleV, TableOptions, ValueStyle,
};
use vstd::prelude::*;

verus! {

/// The options recognized on an Iceberg-backed table.
#[derive(PartialEq, Eq, Structural, Debug)]
pub enum IcebergOption {
    AllowMovedPaths,
    Files,
    PreserveCasing,
    Select,
}

/// The option's name as written in table options.
pub open spec fn spec_iceberg_option_name(o: IcebergOption) -> Seq<char> {
    match o {
        IcebergOption::AllowMovedPaths => "allow_moved_paths"@,
        IcebergOption::Files => "files"@,
        IcebergOption::PreserveCasing => "preserve_casing"@,
        IcebergOption::Select => "select"@,
    }
}

impl IcebergOption {
    /// The option's name as written in table options.
    pub fn as_str(&self) -> (r: &'static str)
        ensures
            r@ == spec_iceberg_option_name(*self),
    {
        match self {
            IcebergOption::AllowMovedPaths => "allow_moved_paths",
            IcebergOption::Files => "files",
            IcebergOption::PreserveCasing => "preserve_casing",
            IcebergOption::Select => "select",
        }
    }

    /// Whether the option must be present: only `files` is required.
    pub fn is_required(&self) -> (r: bool)
        ensures
            r == (*self is Files),
    {
        match self {
            IcebergOption::Files => true,
            _ => false,
        }
    }
}

/// The rendering rules of `iceberg_scan` arguments: the single-quoted
/// table path, then the moved-paths toggle.
pub open spec fn spec_iceberg_rules() -> Seq<RuleV> {
    seq![
        RuleV { key: "files"@, label: ""@, eq: ""@, style: ValueStyle::Quoted },
        RuleV {
            key: "allow_moved_paths"@,
            label: "allow_moved_paths"@,
            eq: " = "@,
            style: ValueStyle::Bare,
        },
    ]
}

fn iceberg_rules() -> (r: Vec<OptionRule>)
    ensures
        rules_view(r@) == spec_iceberg_rules(),
{
    let mut r: Vec<OptionRule> = Vec::new();
    r.push(rule("files", "", "", ValueStyle::Quoted));
    r.push(rule("allow_moved_paths", "allow_moved_paths", " = ", ValueStyle::Bare));
    proof {
        assert(rules_view(r@) =~~= spec_iceberg_rules());
    }
    r
}

/// The full statement registering an Iceberg-backed view with the engine.
pub open spec fn spec_iceberg_statement(
    table: Seq<char>,
    schema: Seq<char>,
    m: Map<Seq<char>, Seq<char>>,
) -> Seq<char> {
    spec_relation_statement(
        "VIEW"@,
        schema,
        table,
        spec_select_list(m),
        "iceberg_scan"@,
        spec_args(rendered_clauses(spec_iceberg_rules(), m)),
    )
}

/// Builds the statement that registers an Iceberg-backed view over
/// `iceberg_scan` with the embedded engine. Fails exactly when the
/// required `files` option is absent.
pub fn create_view(table_name: &str, schema_name: &str, table_options: &TableOptions) -> (r: Result<
    String,
    OptionError,
>)
    requires
        table_options.inv(),
    ensures
        match r {
            Ok(s) => table_options@.contains_key("files"@) && s@ == spec_iceberg_statement(
                table_name@,
                schema_name@,
                table_options@,
            ),
            Err(e) => !table_options@.contains_key("files"@) && e == OptionError::MissingFiles,
        },
{
    if !table_options.contains("files") {
        return Err(OptionError::MissingFiles);
    }
    let rules = iceberg_rules();
    let clauses = render_clauses(&rules, table_options);
    let args = join_args(&clauses);
    let select = select_list(table_options);
    Ok(
        relation_statement(
            "VIEW",
            schema_name,
            table_name,
            select.as_str(),
            "iceberg_scan",
            args.as_str(),
        ),
    )
}

} // verus!
