//! Re-rendering of the statement under an EXPLAIN, through the outside SQL
//! parser. SQL grammar itself is delegated to that parser, so the spec
//! function `explain_rendered` names what a given text parses to, and the
//! gate's contract is exact over that name: the inner statement's text is
//! owed exactly when the submitted text is one EXPLAIN statement the
//! parser accepts.

use vstd::prelude::*;

verus! {

/// What re-rendering an EXPLAIN text returns: the inner statement written
/// back out as SQL when the text parses as exactly one EXPLAIN statement,
/// and nothing otherwise. The parser and renderer are deterministic, so
/// the result depends on the characters alone.
pub uninterp spec fn explain_rendered(q: Seq<char>) -> Option<Seq<char>>;

/// Relies on sqlparser::parser::Parser::parse_sql with the PostgreSQL
/// dialect and on the statement type's SQL rendering: parses the text and,
/// when it is a sole EXPLAIN statement, writes the inner statement back
/// out; a parse error, several statements, or another statement kind give
/// nothing.
#[verifier::external_body]
fn render_explain_inner(query: &str) -> (r: Option<String>)
    ensures
        match r {
            Some(s) => explain_rendered(query@) == Some(s@),
            None => explain_rendered(query@) is None,
        },
{
    match sqlparser::parser::Parser::parse_sql(&sqlparser::dialect::PostgreSqlDialect {}, query) {
        Err(_) => None,
        Ok(stmts) => match stmts.as_slice() {
            [sqlparser::ast::Statement::Explain { statement, .. }] => Some(statement.to_string()),
            _ => None,
        },
    }
}

/// Why a utility statement's text could not be re-rendered.
#[derive(Clone, Copy, PartialEq, Eq, Structural, Debug)]
pub enum UtilityParseError {
    /// The text is not a single EXPLAIN statement the parser accepts.
    NotSingleExplain,
}

impl UtilityParseError {
    /// A human-readable description of the error.
    pub fn message(&self) -> (r: String)
        ensures
            r@ == "the submitted text is not a single EXPLAIN statement"@,
    {
        String::from_str("the submitted text is not a single EXPLAIN statement")
    }
}

/// Re-renders the statement under an intercepted EXPLAIN: succeeds, with
/// the inner statement written back out as the query the engine will be
/// asked to explain, exactly when the submitted text parses as one EXPLAIN
/// statement.
pub fn parse_query_from_utility_stmt(query_string: &str) -> (r: Result<String, UtilityParseError>)
    ensures
        match r {
            Ok(s) => explain_rendered(query_string@) == Some(s@),
            Err(e) => explain_rendered(query_string@) is None && e
                == UtilityParseError::NotSingleExplain,
        },
{
    match render_explain_inner(query_string) {
        Some(inner) => Ok(inner),
        None => Err(UtilityParseError::NotSingleExplain),
    }
}

} // verus!
