//! The SQL abstract syntax tree, as this library consumes it.
//!
//! An external general-purpose SQL parser turns the query text into its own
//! tree; a thin adapter copies the parts this library reads into the plain
//! types below, one node for one node. Constructs the translator does not
//! support arrive as the `Other` variants, carrying the node's textual
//! rendering for diagnostics.

use vstd::prelude::*;

verus! {

/// A binary operator token of the parsed SQL text.
#[derive(Debug, PartialEq, Eq)]
pub enum AstOp {
    Plus,
    Minus,
    Multiply,
    Divide,
    Modulo,
    Gt,
    Lt,
    GtEq,
    LtEq,
    Eq,
    NotEq,
    And,
    Or,
    /// Any other operator, rendered as text.
    Other(String),
}

/// A literal value token of the parsed SQL text.
#[derive(Debug, PartialEq, Eq)]
pub enum AstValue {
    /// A numeric literal, kept as the digits the parser saw.
    Number(String),
    Boolean(bool),
    Null,
    /// Any other literal kind (string, interval, ...), rendered as text.
    Other(String),
}

/// An expression node of the parsed SQL text.
#[derive(Debug, PartialEq, Eq)]
pub enum AstExpr {
    BinaryOp { left: Box<AstExpr>, op: AstOp, right: Box<AstExpr> },
    Wildcard,
    IsNull(Box<AstExpr>),
    IsNotNull(Box<AstExpr>),
    /// A bare identifier, with its literal text.
    Identifier(String),
    Value(AstValue),
    /// Any other expression form (function call, subquery, CASE, ...),
    /// rendered as text.
    Other(String),
}

/// One item of the projection list of a SELECT.
#[derive(Debug, PartialEq, Eq)]
pub enum AstSelectItem {
    UnnamedExpr(AstExpr),
    ExprWithAlias { expr: AstExpr, alias: String },
    /// `t.*`, carrying the qualifier's text.
    QualifiedWildcard(String),
    Wildcard,
    /// Any other projection form, rendered as text.
    Other(String),
}

/// What stands in a FROM clause position: a named table, or anything else
/// (a derived table, a table function, ...), rendered as text.
#[derive(Debug, PartialEq, Eq)]
pub enum AstRelation {
    Table { name_parts: Vec<String> },
    Other(String),
}

/// One FROM entry: a relation and the number of JOIN clauses chained to it.
#[derive(Debug, PartialEq, Eq)]
pub struct AstTableWithJoins {
    pub relation: AstRelation,
    pub joins: usize,
}

/// One ORDER BY entry: a sort-key expression and the parser's ascending flag,
/// `None` where the text gives neither ASC nor DESC.
#[derive(Debug, PartialEq, Eq)]
pub struct AstOrderByItem {
    pub expr: AstExpr,
    pub asc: Option<bool>,
}

/// An OFFSET clause; only its value expression is read.
#[derive(Debug, PartialEq, Eq)]
pub struct AstOffset {
    pub value: AstExpr,
}

/// The body of a query: a plain SELECT, or any other set expression
/// (UNION, VALUES, ...), rendered as text.
#[derive(Debug, PartialEq, Eq)]
pub enum AstSetExpr {
    Select(AstSelect),
    Other(String),
}

/// The clauses of a SELECT body that this library reads.
#[derive(Debug, PartialEq, Eq)]
pub struct AstSelect {
    pub projection: Vec<AstSelectItem>,
    pub from: Vec<AstTableWithJoins>,
    /// The WHERE clause, absent where the text has none.
    pub selection: Option<AstExpr>,
}

/// A query statement: body plus the trailing ORDER BY / LIMIT / OFFSET.
#[derive(Debug, PartialEq, Eq)]
pub struct AstQuery {
    pub body: AstSetExpr,
    pub order_by: Vec<AstOrderByItem>,
    pub limit: Option<AstExpr>,
    pub offset: Option<AstOffset>,
}

/// One parsed SQL statement: a query, or any other statement kind
/// (DDL, DML, ...), rendered as text.
#[derive(Debug, PartialEq, Eq)]
pub enum AstStatement {
    Query(Box<AstQuery>),
    Other(String),
}

} // verus!
