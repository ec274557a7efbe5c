//! Push-down eligibility: whether every relation a statement references is
//! an external table backed by a recognized engine handler, the
//! reconciliation of the host's schema search path with the engine's
//! catalog, and the delegation decision for view creation.

use crate::text::str_eq;
use vstd::prelude::*;

verus! {

/// The registered external-data-source handler behind a foreign table.
#[derive(Clone, Copy, PartialEq, Eq, Structural, Debug)]
pub enum TableHandler {
    Csv,
    Delta,
    Iceberg,
    Json,
    Parquet,
    Spatial,
    /// Any handler the embedded engine does not back.
    Other,
}

/// What the classifier reads of one referenced relation.
#[derive(Clone, Copy, PartialEq, Eq, Structural, Debug)]
pub struct TableRef {
    /// Whether the relation is a foreign table at all.
    pub is_foreign: bool,
    /// The handler its foreign server is registered with.
    pub handler: TableHandler,
}

/// A relation the embedded engine can serve: a foreign table bound to a
/// recognized handler.
pub open spec fn engine_backed(t: TableRef) -> bool {
    t.is_foreign && !(t.handler is Other)
}

/// Whether a statement referencing exactly these relations can be delegated
/// to the embedded engine.
pub open spec fn spec_pushdown_eligible(tables: Seq<TableRef>) -> bool {
    tables.len() > 0 && forall|i: int| 0 <= i < tables.len() ==> engine_backed(tables[i])
}

/// Decides push-down eligibility: true exactly when the reference list is
/// non-empty and every referenced relation is an engine-backed foreign
/// table. A mix of native and engine-backed tables, or zero tables, is
/// ineligible. No side effects; safe to call speculatively.
pub fn is_pushdown_eligible(tables: &Vec<TableRef>) -> (r: bool)
    ensures
        r == spec_pushdown_eligible(tables@),
{
    let n = tables.len();
    if n == 0 {
        return false;
    }
    let mut i: usize = 0;
    while i < n
        invariant
            i <= n,
            n == tables@.len(),
            forall|j: int| 0 <= j < i ==> engine_backed(tables@[j]),
        decreases n - i,
    {
        let t = tables[i];
        let backed = t.is_foreign && !matches!(t.handler, TableHandler::Other);
        if !backed {
            return false;
        }
        i = i + 1;
    }
    true
}

/// Whether some element of `schemas` reads `s`.
pub open spec fn contains_schema(schemas: Seq<Seq<char>>, s: Seq<char>) -> bool {
    exists|j: int| 0 <= j < schemas.len() && schemas[j] == s
}

/// Tests whether `schemas` holds `name`.
pub fn schemas_contain(schemas: &Vec<String>, name: &str) -> (r: bool)
    ensures
        r == contains_schema(schemas.deep_view(), name@),
{
    let n = schemas.len();
    let mut i: usize = 0;
    while i < n
        invariant
            i <= n,
            n == schemas@.len(),
            forall|j: int| 0 <= j < i ==> schemas.deep_view()[j] != name@,
        decreases n - i,
    {
        if str_eq(schemas[i].as_str(), name) {
            proof {
                assert(schemas.deep_view()[i as int] == name@);
            }
            return true;
        }
        i = i + 1;
    }
    false
}

/// The host search path restricted to schemas the engine's catalog knows.
pub open spec fn spec_reconciled_path(host: Seq<Seq<char>>, engine: Seq<Seq<char>>) -> Seq<
    Seq<char>,
> {
    host.filter(|s: Seq<char>| contains_schema(engine, s))
}

/// Restricts the host's schema search path to the schemas that exist in the
/// engine's catalog, keeping their order: a schema name the engine does not
/// know would otherwise abort the push-down when the session's search path
/// is set.
pub fn reconcile_search_path(host: &Vec<String>, engine: &Vec<String>) -> (r: Vec<String>)
    ensures
        r.deep_view() == spec_reconciled_path(host.deep_view(), engine.deep_view()),
{
    let mut r: Vec<String> = Vec::new();
    let n = host.len();
    let mut i: usize = 0;
    while i < n
        invariant
            i <= n,
            n == host@.len(),
            r.deep_view() == host.deep_view().take(i as int).filter(
                |s: Seq<char>| contains_schema(engine.deep_view(), s),
            ),
        decreases n - i,
    {
        let ghost pred = |s: Seq<char>| contains_schema(engine.deep_view(), s);
        let ghost prefix = host.deep_view().take(i as int);
        proof {
            assert(host.deep_view().take(i + 1 as int) =~= prefix.push(
                host.deep_view()[i as int],
            ));
            reveal(Seq::filter);
            assert(prefix.push(host.deep_view()[i as int]).drop_last() =~= prefix);
            assert(prefix.push(host.deep_view()[i as int]).filter(pred) == prefix.filter(pred)
                + if pred(host.deep_view()[i as int]) {
                    seq![host.deep_view()[i as int]]
                } else {
                    Seq::empty()
                });
        }
        if schemas_contain(engine, host[i].as_str()) {
            r.push(host[i].clone());
            proof {
                assert(r.deep_view() =~~= host.deep_view().take(i + 1 as int).filter(pred));
            }
        } else {
            proof {
                assert(r.deep_view() =~~= host.deep_view().take(i + 1 as int).filter(pred));
            }
        }
        i = i + 1;
    }
    proof {
        assert(host.deep_view().take(n as int) =~= host.deep_view());
    }
    r
}

/// What the view-delegation check reads of one relation referenced in a
/// view's FROM clause (through join trees).
pub struct ViewRelation {
    /// The relation's name as written.
    pub name: String,
    /// How many dot-separated parts qualify the written name.
    pub name_parts: usize,
    /// For an unqualified name: whether it resolves against the current
    /// default schema to an existing engine relation.
    pub resolves_unqualified: bool,
    /// The classifier's reading of the resolved relation.
    pub table: TableRef,
}

/// The delegation decision for a view definition.
pub enum ViewDecision {
    /// Every referenced relation is engine-backed: submit the view creation
    /// text to the engine's catalog.
    Delegate,
    /// Some relation fails the check: create the view natively and warn,
    /// naming the offending relation.
    FallbackToNative(String),
}

/// A hard, user-facing delegation error.
pub enum ViewError {
    /// A three-part qualified name (database.schema.table) is unsupported,
    /// by design; named after the offending relation.
    UnsupportedQualification(String),
}

impl ViewError {
    /// A human-readable description of the error.
    pub fn message(&self) -> (r: String)
        ensures
            match self {
                ViewError::UnsupportedQualification(name) => r@ ==
                    "relations qualified by database name are not supported: "@ + name@,
            },
    {
        match self {
            ViewError::UnsupportedQualification(name) => {
                let mut s = String::from_str(
                    "relations qualified by database name are not supported: ",
                );
                s.append(name.as_str());
                s
            },
        }
    }
}

/// A relation passes the delegation check when it is engine-backed and,
/// written unqualified, resolves against the current default schema.
pub open spec fn view_relation_ok(r: ViewRelation) -> bool {
    engine_backed(r.table) && (r.name_parts != 1 || r.resolves_unqualified)
}

/// Decides whether a view definition referencing exactly these relations is
/// delegated to the embedded engine's catalog. A name with three or more
/// qualifying parts is a hard error naming the first such relation; any
/// other failing relation makes the creation fall back to the native path,
/// naming the first offender; otherwise the creation is delegated.
pub fn maybe_delegate_view(relations: &Vec<ViewRelation>) -> (r: Result<ViewDecision, ViewError>)
    ensures
        match r {
            Err(ViewError::UnsupportedQualification(name)) => exists|i: int|
                0 <= i < relations@.len() && relations@[i].name_parts >= 3 && name@
                    == relations@[i].name@,
            Ok(ViewDecision::FallbackToNative(name)) => {
                &&& (forall|i: int|
                    0 <= i < relations@.len() ==> relations@[i].name_parts < 3)
                &&& exists|i: int|
                    0 <= i < relations@.len() && !view_relation_ok(relations@[i]) && name@
                        == relations@[i].name@
            },
            Ok(ViewDecision::Delegate) => forall|i: int|
                0 <= i < relations@.len() ==> relations@[i].name_parts < 3 && view_relation_ok(
                    relations@[i],
                ),
        },
{
    let n = relations.len();
    let mut i: usize = 0;
    while i < n
        invariant
            i <= n,
            n == relations@.len(),
            forall|j: int| 0 <= j < i ==> relations@[j].name_parts < 3,
        decreases n - i,
    {
        if relations[i].name_parts >= 3 {
            return Err(ViewError::UnsupportedQualification(relations[i].name.clone()));
        }
        i = i + 1;
    }
    let mut i: usize = 0;
    while i < n
        invariant
            i <= n,
            n == relations@.len(),
            forall|j: int| 0 <= j < n ==> relations@[j].name_parts < 3,
            forall|j: int| 0 <= j < i ==> view_relation_ok(relations@[j]),
        decreases n - i,
    {
        let backed = relations[i].table.is_foreign && !matches!(
            relations[i].table.handler,
            TableHandler::Other,
        );
        let ok = backed && (relations[i].name_parts != 1 || relations[i].resolves_unqualified);
        if !ok {
            return Ok(ViewDecision::FallbackToNative(relations[i].name.clone()));
        }
        i = i + 1;
    }
    Ok(ViewDecision::Delegate)
}

/// What the utility hook reads of one planned statement of a view
/// definition.
#[derive(Clone, Copy, PartialEq, Eq, Structural, Debug)]
pub struct PlannedStatementInfo {
    /// Whether the planned statement is a plain SELECT.
    pub is_select: bool,
    /// Whether every relation it references is engine-backed.
    pub eligible: bool,
}

/// Whether the original view text is also submitted to the engine: true
/// exactly when every planned statement of the rewritten view query is an
/// eligible SELECT.
pub fn view_query_pushdown(stmts: &Vec<PlannedStatementInfo>) -> (r: bool)
    ensures
        r == forall|i: int|
            0 <= i < stmts@.len() ==> stmts@[i].is_select && stmts@[i].eligible,
{
    let n = stmts.len();
    let mut i: usize = 0;
    while i < n
        invariant
            i <= n,
            n == stmts@.len(),
            forall|j: int| 0 <= j < i ==> stmts@[j].is_select && stmts@[j].eligible,
        decreases n - i,
    {
        if !stmts[i].is_select || !stmts[i].eligible {
            return false;
        }
        i = i + 1;
    }
    true
}

} // verus!
