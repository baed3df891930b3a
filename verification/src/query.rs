//! The translated query: the expression tree and the query record that the
//! execution engine consumes.

use vstd::prelude::*;

verus! {

/// A binary operator of the execution engine's expression model.
#[derive(Debug, Clone, Copy, PartialEq, Eq, Structural)]
pub enum Operator {
    Plus,
    Minus,
    Multiply,
    Divide,
    Modulo,
    Gt,
    Lt,
    GtEq,
    LtEq,
    Eq,
    NotEq,
    And,
    Or,
}

/// A literal of the execution engine's expression model.
///
/// A number keeps its validated decimal text: the engine, not this library,
/// turns it into its floating-point form. Translation admits the text only
/// when it is a well-formed decimal numeral (see
/// [`crate::num::is_float_text`]), so that reading never fails downstream.
#[derive(Debug, PartialEq, Eq)]
pub enum LiteralValue {
    Number(String),
    Boolean(bool),
    Null,
}

/// A translated predicate or projection expression. Each tree mirrors one
/// source AST subtree, one node for one node.
#[derive(Debug, PartialEq, Eq)]
pub enum Expression {
    Column(String),
    Literal(LiteralValue),
    Wildcard,
    BinaryExpr { left: Box<Expression>, op: Operator, right: Box<Expression> },
    IsNull(Box<Expression>),
    IsNotNull(Box<Expression>),
    Alias(Box<Expression>, String),
}

/// The translated, validated query, ready for the execution engine.
///
/// `selection` is the output column order and is never empty after a
/// successful translation (a wildcard counts as one entry). `condition`
/// absent means no filtering; `order_by` pairs are (column, descending);
/// `offset` absent means 0; `limit` absent means unbounded.
#[derive(Debug, PartialEq, Eq)]
pub struct Sql {
    pub selection: Vec<Expression>,
    pub condition: Option<Expression>,
    pub source: String,
    pub order_by: Vec<(String, bool)>,
    pub offset: Option<i64>,
    pub limit: Option<usize>,
}

/// The mathematical shape of a [`Sql`] record: sequences in place of vectors.
pub struct SqlView {
    pub selection: Seq<Expression>,
    pub condition: Option<Expression>,
    pub source: String,
    pub order_by: Seq<(String, bool)>,
    pub offset: Option<i64>,
    pub limit: Option<usize>,
}

impl View for Sql {
    type V = SqlView;

    open spec fn view(&self) -> SqlView {
        SqlView {
            selection: self.selection@,
            condition: self.condition,
            source: self.source,
            order_by: self.order_by@,
            offset: self.offset,
            limit: self.limit,
        }
    }
}

} // verus!
