//! Statement builder for Delta-backed external tables.

use crate::json::{select_list, spec_select_list};
use crate::options::{
    join_args, relation_statement, render_clauses, rendered_clauses, rule, rules_view, spec_args,
    spec_relation_statement, OptionError, OptionRule, RuleV, TableOptions, ValueStyle,
};
use vstd::prelude::*;

verus! {

/// The options recognized on a Delta-backed table.
#[derive(PartialEq, Eq, Structural, Debug)]
pub enum DeltaOption {
    Files,
    PreserveCasing,
    Select,
}

/// The option's name as written in table options.
pub open spec fn spec_delta_option_name(o: DeltaOption) -> Seq<char> {
    match o {
        DeltaOption::Files => "files"@,
        DeltaOption::PreserveCasing => "preserve_casing"@,
        DeltaOption::Select => "select"@,
    }
}

impl DeltaOption {
    /// The option's name as written in table options.
    pub fn as_str(&self) -> (r: &'static str)
        ensures
            r@ == spec_delta_option_name(*self),
    {
        match self {
            DeltaOption::Files => "files",
            DeltaOption::PreserveCasing => "preserve_casing",
            DeltaOption::Select => "select",
        }
    }

    /// Whether the option must be present: only `files` is required.
    pub fn is_required(&self) -> (r: bool)
        ensures
            r == (*self is Files),
    {
        match self {
            DeltaOption::Files => true,
            _ => false,
        }
    }
}

/// The rendering rules of `delta_scan` arguments: the single-quoted table
/// path.
pub open spec fn spec_delta_rules() -> Seq<RuleV> {
    seq![RuleV { key: "files"@, label: ""@, eq: ""@, style: ValueStyle::Quoted }]
}

fn delta_rules() -> (r: Vec<OptionRule>)
    ensures
        rules_view(r@) == spec_delta_rules(),
{
    let mut r: Vec<OptionRule> = Vec::new();
    r.push(rule("files", "", "", ValueStyle::Quoted));
    proof {
        assert(rules_view(r@) =~~= spec_delta_rules());
    }
    r
}

/// The full statement registering a Delta-backed view with the engine.
pub open spec fn spec_delta_statement(
    table: Seq<char>,
    schema: Seq<char>,
    m: Map<Seq<char>, Seq<char>>,
) -> Seq<char> {
    spec_relation_statement(
        "VIEW"@,
        schema,
        table,
        spec_select_list(m),
        "delta_scan"@,
        spec_args(rendered_clauses(spec_delta_rules(), m)),
    )
}

/// Builds the statement that registers a Delta-backed view over
/// `delta_scan` with the embedded engine. Fails exactly when the required
/// `files` option is absent.
pub fn create_view(table_name: &str, schema_name: &str, table_options: &TableOptions) -> (r: Result<
    String,
    OptionError,
>)
    requires
        table_options.inv(),
    ensures
        match r {
            Ok(s) => table_options@.contains_key("files"@) && s@ == spec_delta_statement(
                table_name@,
                schema_name@,
                table_options@,
            ),
            Err(e) => !table_options@.contains_key("files"@) && e == OptionError::MissingFiles,
        },
{
    if !table_options.contains("files") {
        return Err(OptionError::MissingFiles);
    }
    let rules = delta_rules();
    let clauses = render_clauses(&rules, table_options);
    let args = join_args(&clauses);
    let select = select_list(table_options);
    Ok(
        relation_statement(
            "VIEW",
            schema_name,
            table_name,
            select.as_str(),
            "delta_scan",
            args.as_str(),
        ),
    )
}

} // verus!
