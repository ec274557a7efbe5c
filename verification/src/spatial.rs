//! Statement builder for spatial-format external tables, read through the
//! engine's `st_read` function.

use crate::csv::{cache_requested, spec_relation_kind};
use crate::options::{
    join_args, relation_statement, render_clauses, rendered_clauses, rule, rules_view, spec_args,
    spec_relation_statement, OptionError, OptionRule, RuleV, TableOptions, ValueStyle,
};
use vstd::prelude::*;

verus! {

/// The options recognized on a spatial-format table, the arguments of
/// `st_read`.
#[derive(PartialEq, Eq, Structural, Debug)]
pub enum SpatialOption {
    Files,
    Cache,
    SequentialLayerScan,
    SpatialFilter,
    OpenOptions,
    Layer,
    AllowedDrivers,
    SiblingFiles,
    SpatialFilterBox,
    KeepWkb,
}

/// The option's name as written in table options.
pub open spec fn spec_spatial_option_name(o: SpatialOption) -> Seq<char> {
    match o {
        SpatialOption::Files => "files"@,
        SpatialOption::Cache => "cache"@,
        SpatialOption::SequentialLayerScan => "sequential_layer_scan"@,
        SpatialOption::SpatialFilter => "spatial_filter"@,
        SpatialOption::OpenOptions => "open_options"@,
        SpatialOption::Layer => "layer"@,
        SpatialOption::AllowedDrivers => "allowed_drivers"@,
        SpatialOption::SiblingFiles => "sibling_files"@,
        SpatialOption::SpatialFilterBox => "spatial_filter_box"@,
        SpatialOption::KeepWkb => "keep_wkb"@,
    }
}

impl SpatialOption {
    /// The option's name as written in table options.
    pub fn as_str(&self) -> (r: &'static str)
        ensures
            r@ == spec_spatial_option_name(*self),
    {
        match self {
            SpatialOption::Files => "files",
            SpatialOption::Cache => "cache",
            SpatialOption::SequentialLayerScan => "sequential_layer_scan",
            SpatialOption::SpatialFilter => "spatial_filter",
            SpatialOption::OpenOptions => "open_options",
            SpatialOption::Layer => "layer",
            SpatialOption::AllowedDrivers => "allowed_drivers",
            SpatialOption::SiblingFiles => "sibling_files",
            SpatialOption::SpatialFilterBox => "spatial_filter_box",
            SpatialOption::KeepWkb => "keep_wkb",
        }
    }

    /// Whether the option must be present: only `files` is required.
    pub fn is_required(&self) -> (r: bool)
        ensures
            r == (*self is Files),
    {
        match self {
            SpatialOption::Files => true,
            _ => false,
        }
    }
}

/// The rendering rules of `st_read` arguments, in option order: the
/// single-quoted file path first, every other present option as
/// `name=value`.
pub open spec fn spec_spatial_rules() -> Seq<RuleV> {
    seq![
        RuleV { key: "files"@, label: ""@, eq: ""@, style: ValueStyle::Quoted },
        RuleV { key: "cache"@, label: "cache"@, eq: "="@, style: ValueStyle::Bare },
        RuleV {
            key: "sequential_layer_scan"@,
            label: "sequential_layer_scan"@,
            eq: "="@,
            style: ValueStyle::Bare,
        },
        RuleV {
            key: "spatial_filter"@,
            label: "spatial_filter"@,
            eq: "="@,
            style: ValueStyle::Bare,
        },
        RuleV { key: "open_options"@, label: "open_options"@, eq: "="@, style: ValueStyle::Bare },
        RuleV { key: "layer"@, label: "layer"@, eq: "="@, style: ValueStyle::Bare },
        RuleV {
            key: "allowed_drivers"@,
            label: "allowed_drivers"@,
            eq: "="@,
            style: ValueStyle::Bare,
        },
        RuleV { key: "sibling_files"@, label: "sibling_files"@, eq: "="@, style: ValueStyle::Bare },
        RuleV {
            key: "spatial_filter_box"@,
            label: "spatial_filter_box"@,
            eq: "="@,
            style: ValueStyle::Bare,
        },
        RuleV { key: "keep_wkb"@, label: "keep_wkb"@, eq: "="@, style: ValueStyle::Bare },
    ]
}

fn spatial_rules() -> (r: Vec<OptionRule>)
    ensures
        rules_view(r@) == spec_spatial_rules(),
{
    let mut r: Vec<OptionRule> = Vec::new();
    r.push(rule("files", "", "", ValueStyle::Quoted));
    r.push(rule("cache", "cache", "=", ValueStyle::Bare));
    r.push(rule("sequential_layer_scan", "sequential_layer_scan", "=", ValueStyle::Bare));
    r.push(rule("spatial_filter", "spatial_filter", "=", ValueStyle::Bare));
    r.push(rule("open_options", "open_options", "=", ValueStyle::Bare));
    r.push(rule("layer", "layer", "=", ValueStyle::Bare));
    r.push(rule("allowed_drivers", "allowed_drivers", "=", ValueStyle::Bare));
    r.push(rule("sibling_files", "sibling_files", "=", ValueStyle::Bare));
    r.push(rule("spatial_filter_box", "spatial_filter_box", "=", ValueStyle::Bare));
    r.push(rule("keep_wkb", "keep_wkb", "=", ValueStyle::Bare));
    proof {
        assert(rules_view(r@) =~~= spec_spatial_rules());
    }
    r
}

/// The full statement registering a spatial-format relation with the
/// engine.
pub open spec fn spec_spatial_statement(
    table: Seq<char>,
    schema: Seq<char>,
    m: Map<Seq<char>, Seq<char>>,
) -> Seq<char> {
    spec_relation_statement(
        spec_relation_kind(m),
        schema,
        table,
        "*"@,
        "st_read"@,
        spec_args(rendered_clauses(spec_spatial_rules(), m)),
    )
}

/// Builds the statement that registers a spatial-format relation with the
/// embedded engine: a view over `st_read`, or a materialized table when
/// the `cache` option is `true`. Fails exactly when the required `files`
/// option is absent.
pub fn create_duckdb_relation(
    table_name: &str,
    schema_name: &str,
    table_options: &TableOptions,
) -> (r: Result<String, OptionError>)
    requires
        table_options.inv(),
    ensures
        match r {
            Ok(s) => table_options@.contains_key("files"@) && s@ == spec_spatial_statement(
                table_name@,
                schema_name@,
                table_options@,
            ),
            Err(e) => !table_options@.contains_key("files"@) && e == OptionError::MissingFiles,
        },
{
    if !table_options.contains("files") {
        return Err(OptionError::MissingFiles);
    }
    let rules = spatial_rules();
    let clauses = render_clauses(&rules, table_options);
    let args = join_args(&clauses);
    let relation: &'static str = if cache_requested(table_options) {
        "TABLE"
    } else {
        "VIEW"
    };
    Ok(relation_statement(relation, schema_name, table_name, "*", "st_read", args.as_str()))
}

} // verus!
