use lib::common::{Identifier, Range};
use lib::expr::{
    BinaryOperator, Expr, FileLocation, FunctionCall, Hint, HintItem, Lambda, Literal,
    SelectStageOptions, Window, WindowDefinition, WindowSpec,
};
use lib::query::{
    ChangesInterval, ColumnFilter, GroupBy, Indirection, Join, JoinCondition, JoinOperator,
    OrderByExpr, Pivot, Query, SelectStmt, SelectTarget, SetExpr, SetOperation, SetOperator,
    TableAlias, TableReference, TemporalClause, TimeTravelPoint, Unpivot, With, CTE,
};

fn ident(name: &str) -> Identifier {
    Identifier { span: None, name: name.to_string(), quote: None }
}

fn col(name: &str) -> Expr {
    Expr::ColumnRef { span: None, column: ident(name) }
}

fn num(n: u64) -> Expr {
    Expr::Literal { span: None, value: Literal::UInt64(n) }
}

fn call(name: &str, args: Vec<Expr>) -> Expr {
    Expr::FunctionCall {
        span: None,
        func: FunctionCall { distinct: false, name: ident(name), args, window: None },
    }
}

fn target(e: Expr) -> SelectTarget {
    SelectTarget::AliasedExpr { expr: Box::new(e), alias: None }
}

fn table(name: &str) -> TableReference {
    TableReference::Table {
        span: None,
        catalog: None,
        database: None,
        table: ident(name),
        alias: None,
        temporal: None,
        consume: false,
        pivot: None,
        unpivot: None,
    }
}

fn select(select_list: Vec<SelectTarget>, from: Vec<TableReference>) -> SelectStmt {
    SelectStmt {
        span: None,
        hints: None,
        distinct: false,
        top_n: None,
        select_list,
        from,
        selection: None,
        group_by: None,
        having: None,
        window_list: None,
        qualify: None,
    }
}

fn query(body: SetExpr) -> Query {
    Query {
        span: None,
        with: None,
        body,
        order_by: vec![],
        limit: vec![],
        offset: None,
        ignore_result: false,
    }
}

fn select_a_from_t() -> SetExpr {
    SetExpr::Select(Box::new(select(vec![target(col("a"))], vec![table("t")])))
}

#[test]
fn identifier_plain_and_quoted() {
    assert_eq!(ident("abc").to_string(), "abc");
    let q = Identifier { span: None, name: "a\"b".to_string(), quote: Some('"') };
    assert_eq!(q.to_string(), "\"a\"\"b\"");
    let b = Identifier { span: None, name: "x y".to_string(), quote: Some('`') };
    assert_eq!(b.to_string(), "`x y`");
}

#[test]
fn literals() {
    assert_eq!(num(0).to_string(), "0");
    assert_eq!(num(120).to_string(), "120");
    assert_eq!(num(u64::MAX).to_string(), "18446744073709551615");
    let s = Expr::Literal { span: None, value: Literal::String("it's".to_string()) };
    assert_eq!(s.to_string(), "'it''s'");
    let t = Expr::Literal { span: None, value: Literal::Boolean(true) };
    assert_eq!(t.to_string(), "TRUE");
    let f = Expr::Literal { span: None, value: Literal::Boolean(false) };
    assert_eq!(f.to_string(), "FALSE");
    let n = Expr::Literal { span: None, value: Literal::Null };
    assert_eq!(n.to_string(), "NULL");
}

#[test]
fn expressions() {
    let e = Expr::BinaryOp {
        span: None,
        op: BinaryOperator::Plus,
        left: Box::new(col("a")),
        right: Box::new(num(1)),
    };
    assert_eq!(e.to_string(), "a + 1");
    let c = Expr::FunctionCall {
        span: None,
        func: FunctionCall {
            distinct: true,
            name: ident("count"),
            args: vec![col("a"), col("b")],
            window: Some(Window::WindowSpec(WindowSpec { partition_by: vec![col("c")] })),
        },
    };
    assert_eq!(c.to_string(), "count(DISTINCT a, b) OVER (PARTITION BY c)");
    let w = Expr::FunctionCall {
        span: None,
        func: FunctionCall {
            distinct: false,
            name: ident("rank"),
            args: vec![],
            window: Some(Window::WindowReference(ident("w"))),
        },
    };
    assert_eq!(w.to_string(), "rank() OVER w");
}

#[test]
fn order_by_items() {
    let o = OrderByExpr { expr: col("a"), asc: None, nulls_first: None };
    assert_eq!(o.to_string(), "a");
    let o = OrderByExpr { expr: col("a"), asc: Some(true), nulls_first: Some(true) };
    assert_eq!(o.to_string(), "a ASC NULLS FIRST");
    let o = OrderByExpr { expr: col("a"), asc: Some(false), nulls_first: Some(false) };
    assert_eq!(o.to_string(), "a DESC NULLS LAST");
}

#[test]
fn select_targets() {
    let t = SelectTarget::AliasedExpr { expr: Box::new(col("a")), alias: Some(ident("b")) };
    assert_eq!(t.to_string(), "a AS b");
    let star = SelectTarget::StarColumns {
        qualified: vec![Indirection::Identifier(ident("t")), Indirection::Star(None)],
        column_filter: None,
    };
    assert_eq!(star.to_string(), "t.*");
    let ex = SelectTarget::StarColumns {
        qualified: vec![Indirection::Star(None)],
        column_filter: Some(ColumnFilter::Excludes(vec![ident("a"), ident("b")])),
    };
    assert_eq!(ex.to_string(), "* EXCLUDE (a, b)");
    let lambda = SelectTarget::StarColumns {
        qualified: vec![Indirection::Star(None)],
        column_filter: Some(ColumnFilter::Lambda(Lambda {
            params: vec![ident("x")],
            expr: Box::new(call("f", vec![col("x")])),
        })),
    };
    assert_eq!(lambda.to_string(), "COLUMNS(x -> f(x))");
    let lambda2 = SelectTarget::StarColumns {
        qualified: vec![Indirection::Star(None)],
        column_filter: Some(ColumnFilter::Lambda(Lambda {
            params: vec![ident("x"), ident("y")],
            expr: Box::new(col("x")),
        })),
    };
    assert_eq!(lambda2.to_string(), "COLUMNS((x, y) -> x)");
}

#[test]
fn indirections() {
    assert_eq!(Indirection::Identifier(ident("db")).to_string(), "db");
    assert_eq!(Indirection::Star(None).to_string(), "*");
}

#[test]
fn table_aliases() {
    let a = TableAlias { name: ident("t"), columns: vec![] };
    assert_eq!(a.to_string(), "t");
    let a = TableAlias { name: ident("t"), columns: vec![ident("x"), ident("y")] };
    assert_eq!(a.to_string(), "t(x, y)");
}

#[test]
fn time_travel_points() {
    let p = TimeTravelPoint::Snapshot("abc".to_string());
    assert_eq!(p.to_string(), "(SNAPSHOT => 'abc')");
    let p = TimeTravelPoint::Timestamp(Box::new(num(5)));
    assert_eq!(p.to_string(), "(TIMESTAMP => 5)");
    let p = TimeTravelPoint::Offset(Box::new(num(7)));
    assert_eq!(p.to_string(), "(OFFSET => 7)");
    let p = TimeTravelPoint::Stream { catalog: None, database: Some(ident("db")), name: ident("s") };
    assert_eq!(p.to_string(), "(STREAM => db.s)");
    let p = TimeTravelPoint::Stream {
        catalog: Some(ident("c")),
        database: Some(ident("db")),
        name: ident("s"),
    };
    assert_eq!(p.to_string(), "(STREAM => c.db.s)");
}

#[test]
fn temporal_clauses() {
    let t = TemporalClause::TimeTravel(TimeTravelPoint::Snapshot("x".to_string()));
    assert_eq!(t.to_string(), "AT (SNAPSHOT => 'x')");
    let c = ChangesInterval {
        append_only: true,
        at_point: TimeTravelPoint::Offset(Box::new(num(1))),
        end_point: Some(TimeTravelPoint::Offset(Box::new(num(2)))),
    };
    assert_eq!(c.to_string(), "CHANGES (INFORMATION => APPEND_ONLY) AT (OFFSET => 1) END (OFFSET => 2)");
    let c = ChangesInterval {
        append_only: false,
        at_point: TimeTravelPoint::Offset(Box::new(num(1))),
        end_point: None,
    };
    let t = TemporalClause::Changes(c);
    assert_eq!(t.to_string(), "CHANGES (INFORMATION => DEFAULT) AT (OFFSET => 1)");
}

#[test]
fn pivot_and_unpivot() {
    let p = Pivot { aggregate: call("sum", vec![col("x")]), value_column: ident("m"), values: vec![num(1), num(2)] };
    assert_eq!(p.to_string(), "PIVOT(sum(x) FOR m IN (1, 2))");
    let u = Unpivot { value_column: ident("v"), column_name: ident("m"), names: vec![ident("a"), ident("b")] };
    assert_eq!(u.to_string(), "UNPIVOT(v FOR m IN (a, b))");
}

#[test]
fn named_table() {
    let t = TableReference::Table {
        span: None,
        catalog: Some(ident("c")),
        database: Some(ident("d")),
        table: ident("t"),
        alias: Some(TableAlias { name: ident("x"), columns: vec![] }),
        temporal: Some(TemporalClause::TimeTravel(TimeTravelPoint::Snapshot("s".to_string()))),
        consume: true,
        pivot: Some(Box::new(Pivot { aggregate: call("sum", vec![col("a")]), value_column: ident("m"), values: vec![num(1)] })),
        unpivot: Some(Box::new(Unpivot { value_column: ident("v"), column_name: ident("n"), names: vec![ident("b")] })),
    };
    assert_eq!(
        t.to_string(),
        "c.d.t AT (SNAPSHOT => 's') WITH CONSUME AS x PIVOT(sum(a) FOR m IN (1)) UNPIVOT(v FOR n IN (b))"
    );
    assert_eq!(table("t").to_string(), "t");
}

#[test]
fn table_functions() {
    let f = TableReference::TableFunction {
        span: None,
        lateral: true,
        name: ident("flatten"),
        params: vec![col("a")],
        named_params: vec![(ident("mode"), num(1)), (ident("depth"), num(2))],
        alias: Some(TableAlias { name: ident("f"), columns: vec![] }),
    };
    assert_eq!(f.to_string(), "LATERAL flatten(a,mode=>1,depth=>2) AS f");
    let g = TableReference::TableFunction {
        span: None,
        lateral: false,
        name: ident("numbers"),
        params: vec![num(10)],
        named_params: vec![],
        alias: None,
    };
    assert_eq!(g.to_string(), "numbers(10)");
    let h = TableReference::TableFunction {
        span: None,
        lateral: false,
        name: ident("gen"),
        params: vec![],
        named_params: vec![(ident("n"), num(3))],
        alias: None,
    };
    assert_eq!(h.to_string(), "gen(n=>3)");
}

#[test]
fn subqueries() {
    let s = TableReference::Subquery {
        span: None,
        lateral: true,
        subquery: Box::new(query(select_a_from_t())),
        alias: Some(TableAlias { name: ident("s"), columns: vec![ident("x")] }),
    };
    assert_eq!(s.to_string(), "LATERAL (SELECT a FROM t) AS s(x)");
}

fn join(op: JoinOperator, condition: JoinCondition) -> TableReference {
    TableReference::Join {
        span: None,
        join: Join { op, condition, left: Box::new(table("a")), right: Box::new(table("b")) },
    }
}

#[test]
fn joins() {
    let on = JoinCondition::On(Box::new(Expr::BinaryOp {
        span: None,
        op: BinaryOperator::Eq,
        left: Box::new(col("x")),
        right: Box::new(col("y")),
    }));
    assert_eq!(join(JoinOperator::Inner, on).to_string(), "a INNER JOIN b ON x = y");
    assert_eq!(
        join(JoinOperator::LeftOuter, JoinCondition::Using(vec![ident("k"), ident("l")])).to_string(),
        "a LEFT OUTER JOIN b USING(k, l)"
    );
    assert_eq!(join(JoinOperator::Inner, JoinCondition::Natural).to_string(), "a NATURAL INNER JOIN b");
    assert_eq!(join(JoinOperator::CrossJoin, JoinCondition::NoCondition).to_string(), "a CROSS JOIN b");
    assert_eq!(join(JoinOperator::RightOuter, JoinCondition::NoCondition).to_string(), "a RIGHT OUTER JOIN b");
    assert_eq!(join(JoinOperator::FullOuter, JoinCondition::NoCondition).to_string(), "a FULL OUTER JOIN b");
    assert_eq!(join(JoinOperator::LeftSemi, JoinCondition::NoCondition).to_string(), "a LEFT SEMI JOIN b");
    assert_eq!(join(JoinOperator::RightSemi, JoinCondition::NoCondition).to_string(), "a RIGHT SEMI JOIN b");
    assert_eq!(join(JoinOperator::LeftAnti, JoinCondition::NoCondition).to_string(), "a LEFT ANTI JOIN b");
    assert_eq!(join(JoinOperator::RightAnti, JoinCondition::NoCondition).to_string(), "a RIGHT ANTI JOIN b");
}

#[test]
fn locations() {
    let l = TableReference::Location {
        span: None,
        location: FileLocation::Stage("s1".to_string()),
        options: SelectStageOptions { files: None, file_format: None, pattern: None },
        alias: None,
    };
    assert_eq!(l.to_string(), "@s1");
    let l = TableReference::Location {
        span: None,
        location: FileLocation::Uri("s3://b/p".to_string()),
        options: SelectStageOptions {
            files: Some(vec!["a.csv".to_string(), "b.csv".to_string()]),
            file_format: Some("csv".to_string()),
            pattern: Some(".*".to_string()),
        },
        alias: Some(TableAlias { name: ident("x"), columns: vec![] }),
    };
    assert_eq!(
        l.to_string(),
        "'s3://b/p' (FILES => ('a.csv','b.csv'),FILE_FORMAT => 'csv',PATTERN => '.*') AS x"
    );
    let l = TableReference::Location {
        span: None,
        location: FileLocation::Stage("s".to_string()),
        options: SelectStageOptions { files: None, file_format: None, pattern: Some("p".to_string()) },
        alias: None,
    };
    assert_eq!(l.to_string(), "@s (PATTERN => 'p')");
}

#[test]
fn select_statement_all_clauses() {
    let s = SelectStmt {
        span: None,
        hints: Some(Hint { hints_list: vec![HintItem { name: ident("max_threads"), expr: num(4) }] }),
        distinct: true,
        top_n: Some(10),
        select_list: vec![target(col("a")), target(call("count", vec![col("b")]))],
        from: vec![table("t"), table("u")],
        selection: Some(Expr::BinaryOp {
            span: None,
            op: BinaryOperator::Gt,
            left: Box::new(col("a")),
            right: Box::new(num(1)),
        }),
        group_by: Some(GroupBy::Normal(vec![col("a")])),
        having: Some(Expr::BinaryOp {
            span: None,
            op: BinaryOperator::Lt,
            left: Box::new(call("count", vec![col("b")])),
            right: Box::new(num(5)),
        }),
        window_list: Some(vec![WindowDefinition {
            name: ident("w"),
            spec: WindowSpec { partition_by: vec![col("a")] },
        }]),
        qualify: Some(col("q")),
    };
    assert_eq!(
        s.to_string(),
        "SELECT /*+ max_threads(4) */ DISTINCT TOP 10 a, count(b) FROM t, u WHERE a > 1 \
         GROUP BY a HAVING count(b) < 5 WINDOW w AS (PARTITION BY a) QUALIFY q"
    );
    let bare = select(vec![target(num(1))], vec![]);
    assert_eq!(bare.to_string(), "SELECT 1");
}

#[test]
fn group_by_kinds() {
    let mut s = select(vec![target(col("a"))], vec![table("t")]);
    s.group_by = Some(GroupBy::All);
    assert_eq!(s.to_string(), "SELECT a FROM t GROUP BY ALL");
    s.group_by = Some(GroupBy::GroupingSets(vec![vec![col("a")], vec![col("a"), col("b")], vec![]]));
    assert_eq!(s.to_string(), "SELECT a FROM t GROUP BY GROUPING SETS ((a), (a, b), ())");
    s.group_by = Some(GroupBy::Cube(vec![col("a"), col("b")]));
    assert_eq!(s.to_string(), "SELECT a FROM t GROUP BY CUBE (a, b)");
    s.group_by = Some(GroupBy::Rollup(vec![col("a")]));
    assert_eq!(s.to_string(), "SELECT a FROM t GROUP BY ROLLUP (a)");
}

#[test]
fn set_expressions() {
    let op = |op: SetOperator, all: bool| SetExpr::SetOperation(Box::new(SetOperation {
        span: None,
        op,
        all,
        left: Box::new(select_a_from_t()),
        right: Box::new(SetExpr::Query(Box::new(query(select_a_from_t())))),
    }));
    assert_eq!(op(SetOperator::Union, true).to_string(), "SELECT a FROM t UNION ALL (SELECT a FROM t)");
    assert_eq!(op(SetOperator::Except, false).to_string(), "SELECT a FROM t EXCEPT (SELECT a FROM t)");
    assert_eq!(op(SetOperator::Intersect, false).to_string(), "SELECT a FROM t INTERSECT (SELECT a FROM t)");
    let values = SetExpr::Values { span: None, values: vec![vec![num(1), num(2)], vec![num(3), num(4)]] };
    assert_eq!(values.to_string(), "VALUES(1, 2), (3, 4)");
}

#[test]
fn query_all_clauses() {
    let cte = CTE {
        span: None,
        alias: TableAlias { name: ident("c"), columns: vec![ident("x")] },
        materialized: true,
        query: Box::new(query(select_a_from_t())),
    };
    let cte2 = CTE {
        span: None,
        alias: TableAlias { name: ident("d"), columns: vec![] },
        materialized: false,
        query: Box::new(query(select_a_from_t())),
    };
    let q = Query {
        span: None,
        with: Some(With { span: None, recursive: true, ctes: vec![cte, cte2] }),
        body: select_a_from_t(),
        order_by: vec![
            OrderByExpr { expr: col("a"), asc: Some(false), nulls_first: None },
            OrderByExpr { expr: col("b"), asc: None, nulls_first: None },
        ],
        limit: vec![num(10)],
        offset: Some(num(5)),
        ignore_result: true,
    };
    assert_eq!(
        q.to_string(),
        "WITH RECURSIVE c(x) AS MATERIALIZED (SELECT a FROM t), d AS (SELECT a FROM t) \
         SELECT a FROM t ORDER BY a DESC, b LIMIT 10 OFFSET 5 IGNORE_RESULT"
    );
    if let Some(w) = &q.with {
        assert_eq!(w.ctes[1].to_string(), "d AS (SELECT a FROM t)");
        assert_eq!(w.to_string(), "RECURSIVE c(x) AS MATERIALIZED (SELECT a FROM t), d AS (SELECT a FROM t)");
    }
    assert_eq!(query(select_a_from_t()).to_string(), "SELECT a FROM t");
}

#[test]
fn spans_carry_over() {
    let r = Range { start: 3, end: 9 };
    let mut s = select(vec![target(col("a"))], vec![]);
    s.span = Some(r);
    assert_eq!(SetExpr::Select(Box::new(s)).span(), Some(r));
}
