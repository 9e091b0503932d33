use lib::common::{Identifier, Range};
use lib::expr::{Expr, FunctionCall, Lambda, Literal, Window};
use lib::query::{
    ColumnFilter, Indirection, Pivot, Query, SelectStmt, SelectTarget, SetExpr, SetOperation,
    SetOperator, TableReference, Unpivot,
};

fn ident(name: &str) -> Identifier {
    Identifier { span: None, name: name.to_string(), quote: None }
}

fn col(name: &str) -> Expr {
    Expr::ColumnRef { span: None, column: ident(name) }
}

fn call(name: &str, window: Option<Window>) -> SelectTarget {
    SelectTarget::AliasedExpr {
        expr: Box::new(Expr::FunctionCall {
            span: None,
            func: FunctionCall { distinct: false, name: ident(name), args: vec![col("a")], window },
        }),
        alias: None,
    }
}

fn star(qualified: Vec<Indirection>) -> SelectTarget {
    SelectTarget::StarColumns { qualified, column_filter: None }
}

fn select_with_span(span: Option<Range>) -> SelectStmt {
    SelectStmt {
        span,
        hints: None,
        distinct: false,
        top_n: None,
        select_list: vec![SelectTarget::AliasedExpr { expr: Box::new(col("a")), alias: None }],
        from: vec![],
        selection: None,
        group_by: None,
        having: None,
        window_list: None,
        qualify: None,
    }
}

fn query_of(body: SetExpr, span: Option<Range>) -> Query {
    Query {
        span,
        with: None,
        body,
        order_by: vec![],
        limit: vec![col("l")],
        offset: None,
        ignore_result: false,
    }
}

fn table(pivot: Option<Box<Pivot>>, unpivot: Option<Box<Unpivot>>) -> TableReference {
    TableReference::Table {
        span: None,
        catalog: None,
        database: None,
        table: ident("t"),
        alias: None,
        temporal: None,
        consume: false,
        pivot,
        unpivot,
    }
}

#[test]
fn is_star_cases() {
    assert!(star(vec![Indirection::Star(None)]).is_star());
    assert!(star(vec![Indirection::Identifier(ident("t")), Indirection::Star(None)]).is_star());
    assert!(!star(vec![Indirection::Identifier(ident("t"))]).is_star());
    assert!(!star(vec![]).is_star());
    assert!(!call("f", None).is_star());
}

#[test]
fn exclude_sets_filter() {
    let mut t = SelectTarget::StarColumns {
        qualified: vec![Indirection::Star(None)],
        column_filter: Some(ColumnFilter::Lambda(Lambda { params: vec![ident("x")], expr: Box::new(col("x")) })),
    };
    t.exclude(vec![ident("a")]);
    assert_eq!(
        t,
        SelectTarget::StarColumns {
            qualified: vec![Indirection::Star(None)],
            column_filter: Some(ColumnFilter::Excludes(vec![ident("a")])),
        }
    );
    assert!(t.is_star());
    t.exclude(vec![ident("b"), ident("c")]);
    assert_eq!(t.to_string(), "* EXCLUDE (b, c)");
}

#[test]
fn window_and_function_names() {
    let plain = call("COUNT", None);
    assert!(!plain.has_window());
    assert_eq!(plain.function_call_name(), Some("count".to_string()));
    let windowed = call("Rank", Some(Window::WindowReference(ident("w"))));
    assert!(windowed.has_window());
    assert_eq!(windowed.function_call_name(), None);
    let column = SelectTarget::AliasedExpr { expr: Box::new(col("A")), alias: None };
    assert!(!column.has_window());
    assert_eq!(column.function_call_name(), None);
    let s = star(vec![Indirection::Star(None)]);
    assert!(!s.has_window());
    assert_eq!(s.function_call_name(), None);
}

#[test]
fn column_filter_accessors() {
    let ex = ColumnFilter::Excludes(vec![ident("a"), ident("b")]);
    assert_eq!(ex.get_excludes(), Some(&[ident("a"), ident("b")][..]));
    assert!(ex.get_lambda().is_none());
    let lambda = Lambda { params: vec![ident("x")], expr: Box::new(col("x")) };
    let l = ColumnFilter::Lambda(Lambda { params: vec![ident("x")], expr: Box::new(col("x")) });
    assert_eq!(l.get_lambda(), Some(&lambda));
    assert!(l.get_excludes().is_none());
}

#[test]
fn pivot_accessors() {
    let p = Pivot { aggregate: col("a"), value_column: ident("m"), values: vec![] };
    let u = Unpivot { value_column: ident("v"), column_name: ident("n"), names: vec![] };
    let t = table(
        Some(Box::new(Pivot { aggregate: col("a"), value_column: ident("m"), values: vec![] })),
        Some(Box::new(u.clone())),
    );
    assert_eq!(t.pivot(), Some(&p));
    assert_eq!(t.unpivot(), Some(&u));
    let bare = table(None, None);
    assert!(bare.pivot().is_none());
    assert!(bare.unpivot().is_none());
    let sub = TableReference::Subquery {
        span: None,
        lateral: true,
        subquery: Box::new(query_of(SetExpr::Select(Box::new(select_with_span(None))), None)),
        alias: None,
    };
    assert!(sub.pivot().is_none());
    assert!(sub.unpivot().is_none());
}

#[test]
fn lateral_flags() {
    let f = |lateral: bool| TableReference::TableFunction {
        span: None,
        lateral,
        name: ident("f"),
        params: vec![],
        named_params: vec![],
        alias: None,
    };
    let s = |lateral: bool| TableReference::Subquery {
        span: None,
        lateral,
        subquery: Box::new(query_of(SetExpr::Select(Box::new(select_with_span(None))), None)),
        alias: None,
    };
    assert!(f(true).is_lateral_table_function());
    assert!(!f(false).is_lateral_table_function());
    assert!(!f(true).is_lateral_subquery());
    assert!(s(true).is_lateral_subquery());
    assert!(!s(false).is_lateral_subquery());
    assert!(!s(true).is_lateral_table_function());
    assert!(!table(None, None).is_lateral_subquery());
    assert!(!table(None, None).is_lateral_table_function());
}

#[test]
fn spans() {
    let r = Some(Range { start: 1, end: 2 });
    assert_eq!(SetExpr::Select(Box::new(select_with_span(r))).span(), r);
    let q = SetExpr::Query(Box::new(query_of(SetExpr::Values { span: None, values: vec![] }, r)));
    assert_eq!(q.span(), r);
    let op = SetExpr::SetOperation(Box::new(SetOperation {
        span: r,
        op: SetOperator::Union,
        all: false,
        left: Box::new(SetExpr::Values { span: None, values: vec![] }),
        right: Box::new(SetExpr::Values { span: None, values: vec![] }),
    }));
    assert_eq!(op.span(), r);
    let v = SetExpr::Values { span: r, values: vec![vec![Expr::Literal { span: None, value: Literal::Null }]] };
    assert_eq!(v.span(), r);
}

#[test]
fn into_query_wraps_other_set_expressions() {
    let r = Some(Range { start: 4, end: 8 });
    let e = SetExpr::Select(Box::new(select_with_span(r)));
    let text = e.to_string();
    let q = e.into_query();
    assert_eq!(q.span, r);
    assert!(q.with.is_none());
    assert!(q.order_by.is_empty());
    assert!(q.limit.is_empty());
    assert!(q.offset.is_none());
    assert!(!q.ignore_result);
    assert_eq!(q.body, SetExpr::Select(Box::new(select_with_span(r))));
    assert_eq!(q.to_string(), text);
}

#[test]
fn into_query_unwraps_a_query() {
    let r = Some(Range { start: 0, end: 5 });
    let inner = query_of(SetExpr::Select(Box::new(select_with_span(None))), r);
    let e = SetExpr::Query(Box::new(query_of(SetExpr::Select(Box::new(select_with_span(None))), r)));
    let text = e.to_string();
    let q = e.into_query();
    assert_eq!(q, inner);
    assert_eq!(text, format!("({})", q.to_string()));
    assert_eq!(text, "(SELECT a LIMIT l)");
}

#[test]
fn subquery_renders_as_parenthesised_query() {
    let sub = TableReference::Subquery {
        span: None,
        lateral: false,
        subquery: Box::new(query_of(SetExpr::Select(Box::new(select_with_span(None))), None)),
        alias: None,
    };
    let e = SetExpr::Query(Box::new(query_of(SetExpr::Select(Box::new(select_with_span(None))), None)));
    assert_eq!(sub.to_string(), e.to_string());
}
