//! The translator's laws: which inputs are owed a successful translation,
//! and that translation is a function of the statement alone.

use vstd::prelude::*;
use crate::ast::{
    AstExpr, AstOp, AstOrderByItem, AstQuery, AstRelation, AstSelect, AstSelectItem, AstSetExpr,
    AstStatement, AstValue,
};
use crate::convert::{
    expr_spec, order_by_spec, projection_spec, selection_spec, statement_spec, statements_spec,
};
use crate::num::is_float_text;

verus! {

/// `op` is one of the thirteen supported operator tokens.
pub open spec fn op_supported(op: AstOp) -> bool {
    !(op matches AstOp::Other(_))
}

/// `v` is a supported literal: a well-formed decimal numeral, a boolean, or
/// NULL.
pub open spec fn literal_supported(v: AstValue) -> bool {
    match v {
        AstValue::Number(t) => is_float_text(t@),
        AstValue::Boolean(_) => true,
        AstValue::Null => true,
        AstValue::Other(_) => false,
    }
}

/// `e` lies in the supported expression subset: columns, supported literals,
/// the wildcard, and binary operations and null tests over supported parts.
pub open spec fn expr_supported(e: AstExpr) -> bool
    decreases e,
{
    match e {
        AstExpr::BinaryOp { left, op, right } => expr_supported(*left) && op_supported(op)
            && expr_supported(*right),
        AstExpr::Wildcard => true,
        AstExpr::IsNull(inner) => expr_supported(*inner),
        AstExpr::IsNotNull(inner) => expr_supported(*inner),
        AstExpr::Identifier(_) => true,
        AstExpr::Value(v) => literal_supported(v),
        AstExpr::Other(_) => false,
    }
}

/// `item` is a supported projection: a bare identifier, an aliased
/// identifier, a qualified wildcard, or the wildcard.
pub open spec fn projection_supported(item: AstSelectItem) -> bool {
    match item {
        AstSelectItem::UnnamedExpr(e) => e matches AstExpr::Identifier(_),
        AstSelectItem::ExprWithAlias { expr, alias: _ } => expr matches AstExpr::Identifier(_),
        AstSelectItem::QualifiedWildcard(_) => true,
        AstSelectItem::Wildcard => true,
        AstSelectItem::Other(_) => false,
    }
}

/// `o` is a supported sort key: a bare identifier.
pub open spec fn order_supported(o: AstOrderByItem) -> bool {
    o.expr matches AstExpr::Identifier(_)
}

/// The FROM clause names exactly one plain, named table with no join.
pub open spec fn from_supported(sel: AstSelect) -> bool {
    &&& sel.from@.len() == 1
    &&& sel.from@[0].joins == 0
    &&& match sel.from@[0].relation {
        AstRelation::Table { name_parts } => name_parts@.len() > 0,
        AstRelation::Other(_) => false,
    }
}

/// The whole statement lies in the supported subset: a single-SELECT query
/// over one plain table, a supported filter if any, a nonempty supported
/// projection list, and identifier sort keys. Offset and limit never count:
/// they are lenient.
pub open spec fn statement_supported(stmt: AstStatement) -> bool {
    match stmt {
        AstStatement::Query(q) => match q.body {
            AstSetExpr::Select(sel) => {
                &&& from_supported(sel)
                &&& match sel.selection {
                    None => true,
                    Some(e) => expr_supported(e),
                }
                &&& sel.projection@.len() > 0
                &&& forall|i: int|
                    0 <= i < sel.projection@.len() ==> projection_supported(
                        #[trigger] sel.projection@[i],
                    )
                &&& forall|i: int|
                    0 <= i < q.order_by@.len() ==> order_supported(#[trigger] q.order_by@[i])
            },
            AstSetExpr::Other(_) => false,
        },
        AstStatement::Other(_) => false,
    }
}

/// Law: translating an expression succeeds exactly on the supported subset.
pub proof fn lemma_expr_translation_total(e: AstExpr)
    ensures
        expr_spec(e) is Ok <==> expr_supported(e),
    decreases e,
{
    match e {
        AstExpr::BinaryOp { left, op, right } => {
            lemma_expr_translation_total(*left);
            lemma_expr_translation_total(*right);
        },
        AstExpr::IsNull(inner) => {
            lemma_expr_translation_total(*inner);
        },
        AstExpr::IsNotNull(inner) => {
            lemma_expr_translation_total(*inner);
        },
        _ => {},
    }
}

/// Law: translating a projection list succeeds exactly when every item is
/// supported.
pub proof fn lemma_selection_translation_total(items: Seq<AstSelectItem>)
    ensures
        selection_spec(items) is Ok <==> (forall|i: int|
            0 <= i < items.len() ==> projection_supported(#[trigger] items[i])),
    decreases items.len(),
{
    if items.len() > 0 {
        lemma_selection_translation_total(items.drop_last());
        assert(forall|i: int|
            0 <= i < items.len() - 1 ==> items.drop_last()[i] == #[trigger] items[i]);
        if selection_spec(items) is Ok {
            assert(projection_spec(items.last()) is Ok);
            assert(projection_supported(items[items.len() - 1]));
        }
        if forall|i: int| 0 <= i < items.len() ==> projection_supported(#[trigger] items[i]) {
            assert(projection_supported(items.last()));
            assert(projection_spec(items.last()) is Ok);
        }
    }
}

/// Law: translating an ORDER BY list succeeds exactly when every sort key is
/// supported.
pub proof fn lemma_order_by_translation_total(items: Seq<AstOrderByItem>)
    ensures
        order_by_spec(items) is Ok <==> (forall|i: int|
            0 <= i < items.len() ==> order_supported(#[trigger] items[i])),
    decreases items.len(),
{
    if items.len() > 0 {
        lemma_order_by_translation_total(items.drop_last());
        assert(forall|i: int|
            0 <= i < items.len() - 1 ==> items.drop_last()[i] == #[trigger] items[i]);
        if order_by_spec(items) is Ok {
            assert(order_supported(items[items.len() - 1]));
        }
        if forall|i: int| 0 <= i < items.len() ==> order_supported(#[trigger] items[i]) {
            assert(order_supported(items.last()));
        }
    }
}

/// Law: translating a statement succeeds exactly on the supported subset —
/// success is owed to every single-table SELECT built from supported
/// operators, literals, projections and sort keys, and to nothing else.
pub proof fn lemma_statement_translation_total(stmt: AstStatement)
    ensures
        statement_spec(stmt) is Ok <==> statement_supported(stmt),
{
    match stmt {
        AstStatement::Query(q) => {
            match q.body {
                AstSetExpr::Select(sel) => {
                    match sel.selection {
                        Some(e) => {
                            lemma_expr_translation_total(e);
                        },
                        None => {},
                    }
                    lemma_selection_translation_total(sel.projection@);
                    lemma_order_by_translation_total(q.order_by@);
                },
                AstSetExpr::Other(_) => {},
            }
        },
        AstStatement::Other(_) => {},
    }
}

/// A successful list translation yields one expression per item.
proof fn lemma_selection_len(items: Seq<AstSelectItem>)
    ensures
        selection_spec(items) matches Ok(v) ==> v.len() == items.len(),
    decreases items.len(),
{
    if items.len() > 0 {
        lemma_selection_len(items.drop_last());
    }
}

/// Law: a successful translation never leaves the selection empty — a
/// wildcard counts as one entry, and an empty projection list is rejected.
pub proof fn lemma_selection_nonempty(stmt: AstStatement)
    ensures
        statement_spec(stmt) matches Ok(v) ==> v.selection.len() > 0,
{
    match stmt {
        AstStatement::Query(q) => {
            match q.body {
                AstSetExpr::Select(sel) => {
                    lemma_selection_len(sel.projection@);
                },
                AstSetExpr::Other(_) => {},
            }
        },
        AstStatement::Other(_) => {},
    }
}

/// Law: translation is deterministic and free of shared state — what a
/// statement translates to is a function of the statement's value alone, so
/// two translations of equal statements agree.
pub proof fn lemma_translation_deterministic(a: AstStatement, b: AstStatement)
    requires
        a == b,
    ensures
        statement_spec(a) == statement_spec(b),
{
}

/// Law: a parse result of two or more statements, or of none, never
/// translates.
pub proof fn lemma_single_statement_required(stmts: Seq<AstStatement>)
    requires
        stmts.len() != 1,
    ensures
        statements_spec(stmts) is Err,
{
}

} // verus!
