//! The failure taxonomy of the query pipeline.
//!
//! Every failure is terminal for its query: there is no retry and no partial
//! result. Variants that reject a construct carry the construct itself, or
//! its textual rendering, so the caller can see what to fix.

use vstd::prelude::*;
use crate::ast::{AstExpr, AstSelectItem};

verus! {

/// Why a query could not be translated or run.
#[derive(Debug, PartialEq, Eq)]
pub enum QueryError {
    /// The external parser rejected the query text.
    ParseError(String),
    /// The text parsed to more than one statement, or to none.
    MultiStatementUnsupported,
    /// The statement is not a plain SELECT query; carries the rendering of
    /// the unsupported part.
    UnsupportedStatement(String),
    /// The FROM clause does not name exactly one table.
    MultipleSourcesUnsupported,
    /// The FROM clause carries a JOIN.
    JoinUnsupported,
    /// The source name begins with neither `http` nor `file://`; carries the
    /// source name.
    UnsupportedSourceScheme(String),
    /// A projection item is none of: bare identifier, aliased identifier,
    /// qualified wildcard, wildcard. Carries the item, or `None` for an
    /// empty projection list, which would leave the selection empty.
    UnsupportedProjection(Option<AstSelectItem>),
    /// An ORDER BY key is not a bare identifier; carries the key expression.
    UnsupportedOrderBy(AstExpr),
    /// An expression form outside the supported subset; carries its rendering.
    UnsupportedExpression(String),
    /// An operator outside the supported thirteen; carries its rendering.
    UnsupportedOperator(String),
    /// A literal that is neither a well-formed number, a boolean, nor NULL;
    /// carries its rendering.
    UnsupportedLiteral(String),
    /// The external fetcher could not retrieve the source's content.
    FetchError(String),
    /// The external loader could not read the content as a table.
    LoadError(String),
    /// The external execution engine failed to run the plan.
    ExecutionError(String),
}

} // verus!
