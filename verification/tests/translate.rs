//! Scenario tests for the statement translator.

use queryer::add;
use queryer::ast::{
    AstExpr, AstOffset, AstOp, AstOrderByItem, AstQuery, AstRelation, AstSelect, AstSelectItem,
    AstSetExpr, AstStatement, AstTableWithJoins, AstValue,
};
use queryer::convert::translate_statements;
use queryer::error::QueryError;
use queryer::query::{Expression, LiteralValue, Operator, Sql};

fn ident(name: &str) -> AstExpr {
    AstExpr::Identifier(name.to_string())
}

fn number(text: &str) -> AstExpr {
    AstExpr::Value(AstValue::Number(text.to_string()))
}

fn table(name: &str) -> AstTableWithJoins {
    AstTableWithJoins {
        relation: AstRelation::Table { name_parts: vec![name.to_string()] },
        joins: 0,
    }
}

fn statement(
    projection: Vec<AstSelectItem>,
    from: Vec<AstTableWithJoins>,
    selection: Option<AstExpr>,
    order_by: Vec<AstOrderByItem>,
    limit: Option<AstExpr>,
    offset: Option<AstOffset>,
) -> AstStatement {
    AstStatement::Query(Box::new(AstQuery {
        body: AstSetExpr::Select(AstSelect { projection, from, selection }),
        order_by,
        limit,
        offset,
    }))
}

fn translate_one(stmt: AstStatement) -> Result<Sql, QueryError> {
    translate_statements(vec![stmt])
}

#[test]
fn it_works() {
    let result = add(2, 2);
    assert_eq!(result, 4);
}

#[test]
fn select_star_from_t() {
    let stmt = statement(
        vec![AstSelectItem::Wildcard],
        vec![table("t")],
        None,
        vec![],
        None,
        None,
    );
    let sql = translate_one(stmt).unwrap();
    assert_eq!(sql.selection, vec![Expression::Wildcard]);
    assert_eq!(sql.condition, None);
    assert_eq!(sql.source, "t");
    assert_eq!(sql.order_by, vec![]);
    assert_eq!(sql.offset, None);
    assert_eq!(sql.limit, None);
}

#[test]
fn where_gt_becomes_binary_expr() {
    let stmt = statement(
        vec![
            AstSelectItem::UnnamedExpr(ident("a")),
            AstSelectItem::UnnamedExpr(ident("b")),
        ],
        vec![table("t")],
        Some(AstExpr::BinaryOp {
            left: Box::new(ident("a")),
            op: AstOp::Gt,
            right: Box::new(number("500")),
        }),
        vec![],
        None,
        None,
    );
    let sql = translate_one(stmt).unwrap();
    assert_eq!(
        sql.selection,
        vec![
            Expression::Column("a".to_string()),
            Expression::Column("b".to_string()),
        ]
    );
    assert_eq!(
        sql.condition,
        Some(Expression::BinaryExpr {
            left: Box::new(Expression::Column("a".to_string())),
            op: Operator::Gt,
            right: Box::new(Expression::Literal(LiteralValue::Number("500".to_string()))),
        })
    );
    // The validated numeral text reads as the floating-point value the
    // execution engine will use.
    let as_float: f64 = "500".parse().unwrap();
    assert_eq!(as_float, 500.0);
}

#[test]
fn order_by_desc_limit_offset() {
    let stmt = statement(
        vec![AstSelectItem::UnnamedExpr(ident("a"))],
        vec![table("t")],
        None,
        vec![AstOrderByItem { expr: ident("a"), asc: Some(false) }],
        Some(number("10")),
        Some(AstOffset { value: number("5") }),
    );
    let sql = translate_one(stmt).unwrap();
    assert_eq!(sql.order_by, vec![("a".to_string(), true)]);
    assert_eq!(sql.limit, Some(10));
    assert_eq!(sql.offset, Some(5));
}

#[test]
fn order_by_flags() {
    for (asc, descending) in [(Some(true), false), (Some(false), true), (None, false)] {
        let stmt = statement(
            vec![AstSelectItem::Wildcard],
            vec![table("t")],
            None,
            vec![AstOrderByItem { expr: ident("k"), asc }],
            None,
            None,
        );
        let sql = translate_one(stmt).unwrap();
        assert_eq!(sql.order_by, vec![("k".to_string(), descending)]);
    }
}

#[test]
fn two_sources_fail() {
    let stmt = statement(
        vec![AstSelectItem::Wildcard],
        vec![table("t"), table("u")],
        None,
        vec![],
        None,
        None,
    );
    assert_eq!(
        translate_one(stmt),
        Err(QueryError::MultipleSourcesUnsupported)
    );
}

#[test]
fn join_fails() {
    let mut t = table("t");
    t.joins = 1;
    let stmt = statement(vec![AstSelectItem::Wildcard], vec![t], None, vec![], None, None);
    assert_eq!(translate_one(stmt), Err(QueryError::JoinUnsupported));
}

#[test]
fn malformed_limit_is_unbounded() {
    let stmt = statement(
        vec![AstSelectItem::Wildcard],
        vec![table("t")],
        None,
        vec![],
        Some(AstExpr::Value(AstValue::Other("'abc'".to_string()))),
        None,
    );
    let sql = translate_one(stmt).unwrap();
    assert_eq!(sql.limit, None);
}

#[test]
fn malformed_offset_defaults_to_zero() {
    let stmt = statement(
        vec![AstSelectItem::Wildcard],
        vec![table("t")],
        None,
        vec![],
        None,
        Some(AstOffset { value: AstExpr::Value(AstValue::Other("'abc'".to_string())) }),
    );
    let sql = translate_one(stmt).unwrap();
    assert_eq!(sql.offset, Some(0));
}

#[test]
fn translating_twice_is_deterministic() {
    let build = || {
        statement(
            vec![
                AstSelectItem::UnnamedExpr(ident("a")),
                AstSelectItem::ExprWithAlias { expr: ident("b"), alias: "c".to_string() },
            ],
            vec![table("t")],
            Some(AstExpr::IsNotNull(Box::new(ident("a")))),
            vec![AstOrderByItem { expr: ident("a"), asc: None }],
            Some(number("3")),
            Some(AstOffset { value: number("1") }),
        )
    };
    let first = translate_one(build());
    let second = translate_one(build());
    assert_eq!(first, second);
    assert!(first.is_ok());
}

#[test]
fn alias_and_qualified_wildcard() {
    let stmt = statement(
        vec![
            AstSelectItem::ExprWithAlias { expr: ident("a"), alias: "b".to_string() },
            AstSelectItem::QualifiedWildcard("t".to_string()),
        ],
        vec![table("t")],
        None,
        vec![],
        None,
        None,
    );
    let sql = translate_one(stmt).unwrap();
    assert_eq!(
        sql.selection,
        vec![
            Expression::Alias(
                Box::new(Expression::Column("a".to_string())),
                "b".to_string()
            ),
            Expression::Column("t".to_string()),
        ]
    );
}

#[test]
fn null_tests_translate() {
    let stmt = statement(
        vec![AstSelectItem::Wildcard],
        vec![table("t")],
        Some(AstExpr::BinaryOp {
            left: Box::new(AstExpr::IsNull(Box::new(ident("a")))),
            op: AstOp::And,
            right: Box::new(AstExpr::IsNotNull(Box::new(ident("b")))),
        }),
        vec![],
        None,
        None,
    );
    let sql = translate_one(stmt).unwrap();
    assert_eq!(
        sql.condition,
        Some(Expression::BinaryExpr {
            left: Box::new(Expression::IsNull(Box::new(Expression::Column("a".to_string())))),
            op: Operator::And,
            right: Box::new(Expression::IsNotNull(Box::new(Expression::Column(
                "b".to_string()
            )))),
        })
    );
}

#[test]
fn boolean_and_null_literals_translate() {
    let stmt = statement(
        vec![AstSelectItem::Wildcard],
        vec![table("t")],
        Some(AstExpr::BinaryOp {
            left: Box::new(AstExpr::Value(AstValue::Boolean(true))),
            op: AstOp::Or,
            right: Box::new(AstExpr::Value(AstValue::Null)),
        }),
        vec![],
        None,
        None,
    );
    let sql = translate_one(stmt).unwrap();
    assert_eq!(
        sql.condition,
        Some(Expression::BinaryExpr {
            left: Box::new(Expression::Literal(LiteralValue::Boolean(true))),
            op: Operator::Or,
            right: Box::new(Expression::Literal(LiteralValue::Null)),
        })
    );
}

#[test]
fn all_thirteen_operators_map() {
    let cases = [
        (AstOp::Plus, Operator::Plus),
        (AstOp::Minus, Operator::Minus),
        (AstOp::Multiply, Operator::Multiply),
        (AstOp::Divide, Operator::Divide),
        (AstOp::Modulo, Operator::Modulo),
        (AstOp::Gt, Operator::Gt),
        (AstOp::Lt, Operator::Lt),
        (AstOp::GtEq, Operator::GtEq),
        (AstOp::LtEq, Operator::LtEq),
        (AstOp::Eq, Operator::Eq),
        (AstOp::NotEq, Operator::NotEq),
        (AstOp::And, Operator::And),
        (AstOp::Or, Operator::Or),
    ];
    for (ast_op, expected) in cases {
        let stmt = statement(
            vec![AstSelectItem::Wildcard],
            vec![table("t")],
            Some(AstExpr::BinaryOp {
                left: Box::new(ident("a")),
                op: ast_op,
                right: Box::new(ident("b")),
            }),
            vec![],
            None,
            None,
        );
        let sql = translate_one(stmt).unwrap();
        match sql.condition {
            Some(Expression::BinaryExpr { op, .. }) => assert_eq!(op, expected),
            other => panic!("expected a binary condition, got {:?}", other),
        }
    }
}

#[test]
fn unsupported_operator_fails() {
    let stmt = statement(
        vec![AstSelectItem::Wildcard],
        vec![table("t")],
        Some(AstExpr::BinaryOp {
            left: Box::new(ident("a")),
            op: AstOp::Other("||".to_string()),
            right: Box::new(ident("b")),
        }),
        vec![],
        None,
        None,
    );
    assert_eq!(
        translate_one(stmt),
        Err(QueryError::UnsupportedOperator("||".to_string()))
    );
}

#[test]
fn unsupported_expression_fails() {
    let stmt = statement(
        vec![AstSelectItem::Wildcard],
        vec![table("t")],
        Some(AstExpr::Other("CASE WHEN a THEN b END".to_string())),
        vec![],
        None,
        None,
    );
    assert_eq!(
        translate_one(stmt),
        Err(QueryError::UnsupportedExpression(
            "CASE WHEN a THEN b END".to_string()
        ))
    );
}

#[test]
fn string_literal_fails_translation() {
    let stmt = statement(
        vec![AstSelectItem::Wildcard],
        vec![table("t")],
        Some(AstExpr::Value(AstValue::Other("'x'".to_string()))),
        vec![],
        None,
        None,
    );
    assert_eq!(
        translate_one(stmt),
        Err(QueryError::UnsupportedLiteral("'x'".to_string()))
    );
}

#[test]
fn malformed_number_literal_fails_translation() {
    let stmt = statement(
        vec![AstSelectItem::Wildcard],
        vec![table("t")],
        Some(AstExpr::Value(AstValue::Number("1.2.3".to_string()))),
        vec![],
        None,
        None,
    );
    assert_eq!(
        translate_one(stmt),
        Err(QueryError::UnsupportedLiteral("1.2.3".to_string()))
    );
}

#[test]
fn left_failure_wins_over_right() {
    let stmt = statement(
        vec![AstSelectItem::Wildcard],
        vec![table("t")],
        Some(AstExpr::BinaryOp {
            left: Box::new(AstExpr::Other("f(x)".to_string())),
            op: AstOp::Eq,
            right: Box::new(AstExpr::Other("g(y)".to_string())),
        }),
        vec![],
        None,
        None,
    );
    assert_eq!(
        translate_one(stmt),
        Err(QueryError::UnsupportedExpression("f(x)".to_string()))
    );
}

#[test]
fn unsupported_projection_fails() {
    let offending = AstExpr::BinaryOp {
        left: Box::new(ident("a")),
        op: AstOp::Plus,
        right: Box::new(number("1")),
    };
    let stmt = statement(
        vec![AstSelectItem::UnnamedExpr(offending)],
        vec![table("t")],
        None,
        vec![],
        None,
        None,
    );
    match translate_one(stmt) {
        Err(QueryError::UnsupportedProjection(Some(AstSelectItem::UnnamedExpr(_)))) => {},
        other => panic!("expected an unsupported projection, got {:?}", other),
    }
}

#[test]
fn empty_projection_fails() {
    let stmt = statement(vec![], vec![table("t")], None, vec![], None, None);
    assert_eq!(
        translate_one(stmt),
        Err(QueryError::UnsupportedProjection(None))
    );
}

#[test]
fn unsupported_order_by_fails() {
    let stmt = statement(
        vec![AstSelectItem::Wildcard],
        vec![table("t")],
        None,
        vec![AstOrderByItem { expr: number("1"), asc: None }],
        None,
        None,
    );
    match translate_one(stmt) {
        Err(QueryError::UnsupportedOrderBy(AstExpr::Value(AstValue::Number(t)))) => {
            assert_eq!(t, "1");
        },
        other => panic!("expected an unsupported order key, got {:?}", other),
    }
}

#[test]
fn non_query_statement_fails() {
    let stmt = AstStatement::Other("DROP TABLE t".to_string());
    assert_eq!(
        translate_one(stmt),
        Err(QueryError::UnsupportedStatement("DROP TABLE t".to_string()))
    );
}

#[test]
fn non_select_body_fails() {
    let stmt = AstStatement::Query(Box::new(AstQuery {
        body: AstSetExpr::Other("VALUES (1)".to_string()),
        order_by: vec![],
        limit: None,
        offset: None,
    }));
    assert_eq!(
        translate_one(stmt),
        Err(QueryError::UnsupportedStatement("VALUES (1)".to_string()))
    );
}

#[test]
fn derived_table_fails() {
    let stmt = statement(
        vec![AstSelectItem::Wildcard],
        vec![AstTableWithJoins {
            relation: AstRelation::Other("(SELECT 1)".to_string()),
            joins: 0,
        }],
        None,
        vec![],
        None,
        None,
    );
    assert_eq!(
        translate_one(stmt),
        Err(QueryError::UnsupportedStatement("(SELECT 1)".to_string()))
    );
}

#[test]
fn nameless_table_fails() {
    let stmt = statement(
        vec![AstSelectItem::Wildcard],
        vec![AstTableWithJoins {
            relation: AstRelation::Table { name_parts: vec![] },
            joins: 0,
        }],
        None,
        vec![],
        None,
        None,
    );
    assert_eq!(
        translate_one(stmt),
        Err(QueryError::MultipleSourcesUnsupported)
    );
}

#[test]
fn qualified_table_name_uses_first_segment() {
    let stmt = statement(
        vec![AstSelectItem::Wildcard],
        vec![AstTableWithJoins {
            relation: AstRelation::Table {
                name_parts: vec!["db".to_string(), "t".to_string()],
            },
            joins: 0,
        }],
        None,
        vec![],
        None,
        None,
    );
    let sql = translate_one(stmt).unwrap();
    assert_eq!(sql.source, "db");
}

#[test]
fn multiple_statements_fail() {
    let a = statement(vec![AstSelectItem::Wildcard], vec![table("t")], None, vec![], None, None);
    let b = statement(vec![AstSelectItem::Wildcard], vec![table("u")], None, vec![], None, None);
    assert_eq!(
        translate_statements(vec![a, b]),
        Err(QueryError::MultiStatementUnsupported)
    );
    assert_eq!(
        translate_statements(vec![]),
        Err(QueryError::MultiStatementUnsupported)
    );
}
