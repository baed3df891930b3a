//! Turning a parsed SQL tree into the validated query record.
//!
//! Each translator consumes its AST node and either builds the corresponding
//! part of the query record or reports the first unsupported construct. The
//! spec functions state the whole translation as total mathematical
//! functions; every executable translator returns exactly what they say.

use vstd::prelude::*;
use crate::ast::{
    AstExpr, AstOffset, AstOp, AstOrderByItem, AstQuery, AstRelation, AstSelect, AstSelectItem,
    AstSetExpr, AstStatement, AstTableWithJoins, AstValue,
};
use crate::error::QueryError;
use crate::num::{
    i64_text_value, is_float_text, usize_text_value, float_text_ok, parse_i64_text,
    parse_usize_text,
};
use crate::query::{Expression, LiteralValue, Operator, Sql, SqlView};

verus! {

/// What translating one operator token yields: the engine operator for the
/// thirteen supported tokens, the error naming any other.
pub open spec fn op_spec(op: AstOp) -> Result<Operator, QueryError> {
    match op {
        AstOp::Plus => Ok(Operator::Plus),
        AstOp::Minus => Ok(Operator::Minus),
        AstOp::Multiply => Ok(Operator::Multiply),
        AstOp::Divide => Ok(Operator::Divide),
        AstOp::Modulo => Ok(Operator::Modulo),
        AstOp::Gt => Ok(Operator::Gt),
        AstOp::Lt => Ok(Operator::Lt),
        AstOp::GtEq => Ok(Operator::GtEq),
        AstOp::LtEq => Ok(Operator::LtEq),
        AstOp::Eq => Ok(Operator::Eq),
        AstOp::NotEq => Ok(Operator::NotEq),
        AstOp::And => Ok(Operator::And),
        AstOp::Or => Ok(Operator::Or),
        AstOp::Other(t) => Err(QueryError::UnsupportedOperator(t)),
    }
}

/// What translating one literal token yields: numbers only with a
/// well-formed decimal text, booleans and NULL directly, anything else the
/// error carrying its rendering.
pub open spec fn literal_spec(v: AstValue) -> Result<LiteralValue, QueryError> {
    match v {
        AstValue::Number(t) => if is_float_text(t@) {
            Ok(LiteralValue::Number(t))
        } else {
            Err(QueryError::UnsupportedLiteral(t))
        },
        AstValue::Boolean(b) => Ok(LiteralValue::Boolean(b)),
        AstValue::Null => Ok(LiteralValue::Null),
        AstValue::Other(t) => Err(QueryError::UnsupportedLiteral(t)),
    }
}

/// What translating one expression node yields: the mirrored engine
/// expression, or the first failure in left-operator-right order.
pub open spec fn expr_spec(e: AstExpr) -> Result<Expression, QueryError>
    decreases e,
{
    match e {
        AstExpr::BinaryOp { left, op, right } => match expr_spec(*left) {
            Err(er) => Err(er),
            Ok(l) => match op_spec(op) {
                Err(er) => Err(er),
                Ok(o) => match expr_spec(*right) {
                    Err(er) => Err(er),
                    Ok(r) => Ok(
                        Expression::BinaryExpr { left: Box::new(l), op: o, right: Box::new(r) },
                    ),
                },
            },
        },
        AstExpr::Wildcard => Ok(Expression::Wildcard),
        AstExpr::IsNull(inner) => match expr_spec(*inner) {
            Err(er) => Err(er),
            Ok(x) => Ok(Expression::IsNull(Box::new(x))),
        },
        AstExpr::IsNotNull(inner) => match expr_spec(*inner) {
            Err(er) => Err(er),
            Ok(x) => Ok(Expression::IsNotNull(Box::new(x))),
        },
        AstExpr::Identifier(name) => Ok(Expression::Column(name)),
        AstExpr::Value(v) => match literal_spec(v) {
            Err(er) => Err(er),
            Ok(x) => Ok(Expression::Literal(x)),
        },
        AstExpr::Other(t) => Err(QueryError::UnsupportedExpression(t)),
    }
}

/// What translating one projection item yields: a column for a bare
/// identifier, an alias over a column, a column for a qualified wildcard,
/// the wildcard itself; anything else the error carrying the item.
pub open spec fn projection_spec(item: AstSelectItem) -> Result<Expression, QueryError> {
    match item {
        AstSelectItem::UnnamedExpr(e) => match e {
            AstExpr::Identifier(name) => Ok(Expression::Column(name)),
            other => Err(
                QueryError::UnsupportedProjection(Some(AstSelectItem::UnnamedExpr(other))),
            ),
        },
        AstSelectItem::ExprWithAlias { expr, alias } => match expr {
            AstExpr::Identifier(name) => Ok(
                Expression::Alias(Box::new(Expression::Column(name)), alias),
            ),
            other => Err(
                QueryError::UnsupportedProjection(
                    Some(AstSelectItem::ExprWithAlias { expr: other, alias }),
                ),
            ),
        },
        AstSelectItem::QualifiedWildcard(name) => Ok(Expression::Column(name)),
        AstSelectItem::Wildcard => Ok(Expression::Wildcard),
        AstSelectItem::Other(t) => Err(
            QueryError::UnsupportedProjection(Some(AstSelectItem::Other(t))),
        ),
    }
}

/// What translating a whole projection list yields: the expressions in list
/// order, or the first item's failure.
pub open spec fn selection_spec(items: Seq<AstSelectItem>) -> Result<Seq<Expression>, QueryError>
    decreases items.len(),
{
    if items.len() == 0 {
        Ok(Seq::<Expression>::empty())
    } else {
        match selection_spec(items.drop_last()) {
            Err(e) => Err(e),
            Ok(rest) => match projection_spec(items.last()) {
                Err(e) => Err(e),
                Ok(x) => Ok(rest.push(x)),
            },
        }
    }
}

/// What resolving the FROM clause yields: the first segment of the single
/// table's name; the errors for zero or several sources, for a join, for a
/// nameless table, and for a FROM entry that is no plain table.
pub open spec fn source_spec(from: Seq<AstTableWithJoins>) -> Result<String, QueryError> {
    if from.len() != 1 {
        Err(QueryError::MultipleSourcesUnsupported)
    } else if from[0].joins != 0 {
        Err(QueryError::JoinUnsupported)
    } else {
        match from[0].relation {
            AstRelation::Table { name_parts } => if name_parts@.len() == 0 {
                Err(QueryError::MultipleSourcesUnsupported)
            } else {
                Ok(name_parts@[0])
            },
            AstRelation::Other(t) => Err(QueryError::UnsupportedStatement(t)),
        }
    }
}

/// What translating one ORDER BY item yields: the identifier's text and the
/// descending flag (the negated ascending flag, absent meaning ascending);
/// any other sort key the error carrying it.
pub open spec fn order_spec(o: AstOrderByItem) -> Result<(String, bool), QueryError> {
    match o.expr {
        AstExpr::Identifier(name) => Ok(
            (
                name,
                match o.asc {
                    Some(a) => !a,
                    None => false,
                },
            ),
        ),
        other => Err(QueryError::UnsupportedOrderBy(other)),
    }
}

/// What translating a whole ORDER BY list yields: the (column, descending)
/// pairs in list order, or the first item's failure.
pub open spec fn order_by_spec(
    items: Seq<AstOrderByItem>,
) -> Result<Seq<(String, bool)>, QueryError>
    decreases items.len(),
{
    if items.len() == 0 {
        Ok(Seq::<(String, bool)>::empty())
    } else {
        match order_by_spec(items.drop_last()) {
            Err(e) => Err(e),
            Ok(rest) => match order_spec(items.last()) {
                Err(e) => Err(e),
                Ok(x) => Ok(rest.push(x)),
            },
        }
    }
}

/// What an OFFSET clause yields under the lenient policy: the numeral's
/// value, and 0 on any other shape or on a value outside `i64` bounds.
pub open spec fn offset_spec(o: AstOffset) -> i64 {
    match o.value {
        AstExpr::Value(v) => match v {
            AstValue::Number(t) => match i64_text_value(t@) {
                Some(n) => n as i64,
                None => 0,
            },
            _ => 0,
        },
        _ => 0,
    }
}

/// What a LIMIT clause yields under the lenient policy: the numeral's value,
/// and unbounded (`None`) on any other shape or on a value outside `usize`
/// bounds.
pub open spec fn limit_spec(e: AstExpr) -> Option<usize> {
    match e {
        AstExpr::Value(v) => match v {
            AstValue::Number(t) => match usize_text_value(t@) {
                Some(n) => Some(n as usize),
                None => None,
            },
            _ => None,
        },
        _ => None,
    }
}

/// What an optional WHERE clause yields: nothing, or its translated
/// expression.
pub open spec fn condition_spec(c: Option<AstExpr>) -> Result<Option<Expression>, QueryError> {
    match c {
        None => Ok(None),
        Some(e) => match expr_spec(e) {
            Err(er) => Err(er),
            Ok(x) => Ok(Some(x)),
        },
    }
}

/// What translating one query yields: the full record, with the clauses
/// taken in the order source, filter, projection, order-by, offset, limit,
/// and the first failure aborting the whole translation. An empty projection
/// list is rejected so that a successful record never has an empty
/// selection.
pub open spec fn query_spec(q: AstQuery) -> Result<SqlView, QueryError> {
    match q.body {
        AstSetExpr::Select(sel) => match source_spec(sel.from@) {
            Err(e) => Err(e),
            Ok(src) => match condition_spec(sel.selection) {
                Err(e) => Err(e),
                Ok(cond) => if sel.projection@.len() == 0 {
                    Err(QueryError::UnsupportedProjection(None))
                } else {
                    match selection_spec(sel.projection@) {
                        Err(e) => Err(e),
                        Ok(selection) => match order_by_spec(q.order_by@) {
                            Err(e) => Err(e),
                            Ok(ob) => Ok(
                                SqlView {
                                    selection,
                                    condition: cond,
                                    source: src,
                                    order_by: ob,
                                    offset: match q.offset {
                                        Some(o) => Some(offset_spec(o)),
                                        None => None,
                                    },
                                    limit: match q.limit {
                                        Some(l) => limit_spec(l),
                                        None => None,
                                    },
                                },
                            ),
                        },
                    }
                },
            },
        },
        AstSetExpr::Other(t) => Err(QueryError::UnsupportedStatement(t)),
    }
}

/// What translating one statement yields: a query's record, or the error
/// carrying any other statement kind's rendering.
pub open spec fn statement_spec(stmt: AstStatement) -> Result<SqlView, QueryError> {
    match stmt {
        AstStatement::Query(q) => query_spec(*q),
        AstStatement::Other(t) => Err(QueryError::UnsupportedStatement(t)),
    }
}

/// What a whole parse result yields: the single statement's record, and the
/// multi-statement error when there is not exactly one statement.
pub open spec fn statements_spec(stmts: Seq<AstStatement>) -> Result<SqlView, QueryError> {
    if stmts.len() != 1 {
        Err(QueryError::MultiStatementUnsupported)
    } else {
        statement_spec(stmts[0])
    }
}

/// Maps one SQL operator token to the engine operator, as [`op_spec`] states.
pub fn translate_operator(op: AstOp) -> (r: Result<Operator, QueryError>)
    ensures
        r == op_spec(op),
{
    match op {
        AstOp::Plus => Ok(Operator::Plus),
        AstOp::Minus => Ok(Operator::Minus),
        AstOp::Multiply => Ok(Operator::Multiply),
        AstOp::Divide => Ok(Operator::Divide),
        AstOp::Modulo => Ok(Operator::Modulo),
        AstOp::Gt => Ok(Operator::Gt),
        AstOp::Lt => Ok(Operator::Lt),
        AstOp::GtEq => Ok(Operator::GtEq),
        AstOp::LtEq => Ok(Operator::LtEq),
        AstOp::Eq => Ok(Operator::Eq),
        AstOp::NotEq => Ok(Operator::NotEq),
        AstOp::And => Ok(Operator::And),
        AstOp::Or => Ok(Operator::Or),
        AstOp::Other(t) => Err(QueryError::UnsupportedOperator(t)),
    }
}

/// Maps one SQL literal to the engine literal, as [`literal_spec`] states.
pub fn translate_literal(v: AstValue) -> (r: Result<LiteralValue, QueryError>)
    ensures
        r == literal_spec(v),
{
    match v {
        AstValue::Number(t) => {
            if float_text_ok(t.as_str()) {
                Ok(LiteralValue::Number(t))
            } else {
                Err(QueryError::UnsupportedLiteral(t))
            }
        },
        AstValue::Boolean(b) => Ok(LiteralValue::Boolean(b)),
        AstValue::Null => Ok(LiteralValue::Null),
        AstValue::Other(t) => Err(QueryError::UnsupportedLiteral(t)),
    }
}

/// Translates one SQL expression into the engine's expression tree, as
/// [`expr_spec`] states: structurally, one node for one node, propagating
/// the first failure in left-operator-right order.
pub fn translate_expr(e: AstExpr) -> (r: Result<Expression, QueryError>)
    ensures
        r == expr_spec(e),
    decreases e,
{
    match e {
        AstExpr::BinaryOp { left, op, right } => {
            let l = match translate_expr(*left) {
                Err(er) => {
                    return Err(er);
                },
                Ok(x) => x,
            };
            let o = match translate_operator(op) {
                Err(er) => {
                    return Err(er);
                },
                Ok(x) => x,
            };
            let r = match translate_expr(*right) {
                Err(er) => {
                    return Err(er);
                },
                Ok(x) => x,
            };
            Ok(Expression::BinaryExpr { left: Box::new(l), op: o, right: Box::new(r) })
        },
        AstExpr::Wildcard => Ok(Expression::Wildcard),
        AstExpr::IsNull(inner) => match translate_expr(*inner) {
            Err(er) => Err(er),
            Ok(x) => Ok(Expression::IsNull(Box::new(x))),
        },
        AstExpr::IsNotNull(inner) => match translate_expr(*inner) {
            Err(er) => Err(er),
            Ok(x) => Ok(Expression::IsNotNull(Box::new(x))),
        },
        AstExpr::Identifier(name) => Ok(Expression::Column(name)),
        AstExpr::Value(v) => match translate_literal(v) {
            Err(er) => Err(er),
            Ok(x) => Ok(Expression::Literal(x)),
        },
        AstExpr::Other(t) => Err(QueryError::UnsupportedExpression(t)),
    }
}

/// Translates one projection item, as [`projection_spec`] states.
pub fn translate_projection(item: AstSelectItem) -> (r: Result<Expression, QueryError>)
    ensures
        r == projection_spec(item),
{
    match item {
        AstSelectItem::UnnamedExpr(e) => match e {
            AstExpr::Identifier(name) => Ok(Expression::Column(name)),
            other => Err(
                QueryError::UnsupportedProjection(Some(AstSelectItem::UnnamedExpr(other))),
            ),
        },
        AstSelectItem::ExprWithAlias { expr, alias } => match expr {
            AstExpr::Identifier(name) => Ok(
                Expression::Alias(Box::new(Expression::Column(name)), alias),
            ),
            other => Err(
                QueryError::UnsupportedProjection(
                    Some(AstSelectItem::ExprWithAlias { expr: other, alias }),
                ),
            ),
        },
        AstSelectItem::QualifiedWildcard(name) => Ok(Expression::Column(name)),
        AstSelectItem::Wildcard => Ok(Expression::Wildcard),
        AstSelectItem::Other(t) => Err(
            QueryError::UnsupportedProjection(Some(AstSelectItem::Other(t))),
        ),
    }
}

/// A failed prefix fails the whole list.
proof fn lemma_selection_prefix_err(s: Seq<AstSelectItem>, k: int, e: QueryError)
    requires
        0 <= k <= s.len(),
        selection_spec(s.take(k)) == Err::<Seq<Expression>, QueryError>(e),
    ensures
        selection_spec(s) == Err::<Seq<Expression>, QueryError>(e),
    decreases s.len() - k,
{
    if k == s.len() {
        assert(s.take(k) =~= s);
    } else {
        assert(s.take(k + 1).drop_last() =~= s.take(k));
        lemma_selection_prefix_err(s, k + 1, e);
    }
}

/// Translates the whole projection list in order, as [`selection_spec`]
/// states: all items, or the first failure.
pub fn translate_projection_list(items: Vec<AstSelectItem>) -> (r: Result<
    Vec<Expression>,
    QueryError,
>)
    ensures
        match r {
            Ok(v) => selection_spec(items@) == Ok::<Seq<Expression>, QueryError>(v@),
            Err(e) => selection_spec(items@) == Err::<Seq<Expression>, QueryError>(e),
        },
{
    let ghost all = items@;
    let mut rest = items;
    let mut out: Vec<Expression> = Vec::new();
    let ghost mut k: int = 0;
    assert(all.take(0) =~= Seq::<AstSelectItem>::empty());
    #[verifier::loop_isolation(false)]
    while rest.len() > 0
        invariant
            0 <= k <= all.len(),
            rest@ == all.skip(k),
            selection_spec(all.take(k)) == Ok::<Seq<Expression>, QueryError>(out@),
        decreases rest.len(),
    {
        let item = rest.remove(0);
        proof {
            assert(item == all[k]);
            assert(all.take(k + 1).drop_last() =~= all.take(k));
            assert(all.take(k + 1).last() == all[k]);
            assert(rest@ =~= all.skip(k + 1));
        }
        match translate_projection(item) {
            Err(e) => {
                proof {
                    assert(selection_spec(all.take(k + 1)) == Err::<
                        Seq<Expression>,
                        QueryError,
                    >(e));
                    lemma_selection_prefix_err(all, k + 1, e);
                }
                return Err(e);
            },
            Ok(x) => {
                out.push(x);
            },
        }
        proof {
            k = k + 1;
        }
    }
    assert(all.take(k) =~= all);
    Ok(out)
}

/// A failed prefix fails the whole list.
proof fn lemma_order_by_prefix_err(s: Seq<AstOrderByItem>, k: int, e: QueryError)
    requires
        0 <= k <= s.len(),
        order_by_spec(s.take(k)) == Err::<Seq<(String, bool)>, QueryError>(e),
    ensures
        order_by_spec(s) == Err::<Seq<(String, bool)>, QueryError>(e),
    decreases s.len() - k,
{
    if k == s.len() {
        assert(s.take(k) =~= s);
    } else {
        assert(s.take(k + 1).drop_last() =~= s.take(k));
        lemma_order_by_prefix_err(s, k + 1, e);
    }
}

/// Translates one ORDER BY item, as [`order_spec`] states.
pub fn translate_order(o: AstOrderByItem) -> (r: Result<(String, bool), QueryError>)
    ensures
        r == order_spec(o),
{
    let AstOrderByItem { expr, asc } = o;
    match expr {
        AstExpr::Identifier(name) => Ok(
            (
                name,
                match asc {
                    Some(a) => !a,
                    None => false,
                },
            ),
        ),
        other => Err(QueryError::UnsupportedOrderBy(other)),
    }
}

/// Translates the whole ORDER BY list in order, as [`order_by_spec`] states:
/// all items, or the first failure.
pub fn translate_order_by(items: Vec<AstOrderByItem>) -> (r: Result<
    Vec<(String, bool)>,
    QueryError,
>)
    ensures
        match r {
            Ok(v) => order_by_spec(items@) == Ok::<Seq<(String, bool)>, QueryError>(v@),
            Err(e) => order_by_spec(items@) == Err::<Seq<(String, bool)>, QueryError>(e),
        },
{
    let ghost all = items@;
    let mut rest = items;
    let mut out: Vec<(String, bool)> = Vec::new();
    let ghost mut k: int = 0;
    assert(all.take(0) =~= Seq::<AstOrderByItem>::empty());
    #[verifier::loop_isolation(false)]
    while rest.len() > 0
        invariant
            0 <= k <= all.len(),
            rest@ == all.skip(k),
            order_by_spec(all.take(k)) == Ok::<Seq<(String, bool)>, QueryError>(out@),
        decreases rest.len(),
    {
        let item = rest.remove(0);
        proof {
            assert(item == all[k]);
            assert(all.take(k + 1).drop_last() =~= all.take(k));
            assert(all.take(k + 1).last() == all[k]);
            assert(rest@ =~= all.skip(k + 1));
        }
        match translate_order(item) {
            Err(e) => {
                proof {
                    assert(order_by_spec(all.take(k + 1)) == Err::<
                        Seq<(String, bool)>,
                        QueryError,
                    >(e));
                    lemma_order_by_prefix_err(all, k + 1, e);
                }
                return Err(e);
            },
            Ok(x) => {
                out.push(x);
            },
        }
        proof {
            k = k + 1;
        }
    }
    assert(all.take(k) =~= all);
    Ok(out)
}

/// Resolves the FROM clause to the single source's name, as [`source_spec`]
/// states.
pub fn translate_source(from: Vec<AstTableWithJoins>) -> (r: Result<String, QueryError>)
    ensures
        r == source_spec(from@),
{
    let ghost gfrom = from@;
    if from.len() != 1 {
        return Err(QueryError::MultipleSourcesUnsupported);
    }
    let mut fr = from;
    let t = fr.remove(0);
    assert(t == gfrom[0]);
    if t.joins != 0 {
        return Err(QueryError::JoinUnsupported);
    }
    match t.relation {
        AstRelation::Table { name_parts } => {
            if name_parts.len() == 0 {
                Err(QueryError::MultipleSourcesUnsupported)
            } else {
                let mut np = name_parts;
                let first = np.remove(0);
                Ok(first)
            }
        },
        AstRelation::Other(t2) => Err(QueryError::UnsupportedStatement(t2)),
    }
}

/// Reads an OFFSET clause leniently, as [`offset_spec`] states: the
/// numeral's value, else 0.
pub fn offset_value(o: AstOffset) -> (r: i64)
    ensures
        r == offset_spec(o),
{
    match o.value {
        AstExpr::Value(v) => match v {
            AstValue::Number(t) => match parse_i64_text(t.as_str()) {
                Some(n) => n,
                None => 0,
            },
            _ => 0,
        },
        _ => 0,
    }
}

/// Reads a LIMIT clause leniently, as [`limit_spec`] states: the numeral's
/// value, else unbounded.
pub fn limit_value(e: AstExpr) -> (r: Option<usize>)
    ensures
        r == limit_spec(e),
{
    match e {
        AstExpr::Value(v) => match v {
            AstValue::Number(t) => match parse_usize_text(t.as_str()) {
                Some(n) => Some(n),
                None => None,
            },
            _ => None,
        },
        _ => None,
    }
}

impl Sql {
    /// Decomposes one parsed statement into the validated query record, as
    /// [`statement_spec`] states: clause by clause, aborting on the first
    /// failure, lenient only about offset and limit.
    pub fn try_from_statement(stmt: AstStatement) -> (r: Result<Sql, QueryError>)
        ensures
            match r {
                Ok(sql) => statement_spec(stmt) == Ok::<SqlView, QueryError>(sql@),
                Err(e) => statement_spec(stmt) == Err::<SqlView, QueryError>(e),
            },
    {
        match stmt {
            AstStatement::Other(t) => Err(QueryError::UnsupportedStatement(t)),
            AstStatement::Query(q) => {
                let ghost gq = *q;
                let AstQuery { body, order_by, limit, offset } = *q;
                match body {
                    AstSetExpr::Other(t) => Err(QueryError::UnsupportedStatement(t)),
                    AstSetExpr::Select(sel) => {
                        let ghost gsel = sel;
                        let AstSelect { projection, from, selection } = sel;
                        let source = match translate_source(from) {
                            Err(e) => {
                                return Err(e);
                            },
                            Ok(s) => s,
                        };
                        let condition = match selection {
                            None => None,
                            Some(e) => match translate_expr(e) {
                                Err(er) => {
                                    return Err(er);
                                },
                                Ok(x) => Some(x),
                            },
                        };
                        if projection.len() == 0 {
                            return Err(QueryError::UnsupportedProjection(None));
                        }
                        let sel_list = match translate_projection_list(projection) {
                            Err(e) => {
                                return Err(e);
                            },
                            Ok(v) => v,
                        };
                        let ob = match translate_order_by(order_by) {
                            Err(e) => {
                                return Err(e);
                            },
                            Ok(v) => v,
                        };
                        let off = match offset {
                            None => None,
                            Some(o) => Some(offset_value(o)),
                        };
                        let lim = match limit {
                            None => None,
                            Some(l) => limit_value(l),
                        };
                        Ok(
                            Sql {
                                selection: sel_list,
                                condition,
                                source,
                                order_by: ob,
                                offset: off,
                                limit: lim,
                            },
                        )
                    },
                }
            },
        }
    }
}

/// Requires exactly one parsed statement and translates it, as
/// [`statements_spec`] states.
pub fn translate_statements(stmts: Vec<AstStatement>) -> (r: Result<Sql, QueryError>)
    ensures
        match r {
            Ok(sql) => statements_spec(stmts@) == Ok::<SqlView, QueryError>(sql@),
            Err(e) => statements_spec(stmts@) == Err::<SqlView, QueryError>(e),
        },
{
    let ghost all = stmts@;
    if stmts.len() != 1 {
        return Err(QueryError::MultiStatementUnsupported);
    }
    let mut v = stmts;
    let stmt = v.remove(0);
    assert(stmt == all[0]);
    Sql::try_from_statement(stmt)
}

} // verus!
