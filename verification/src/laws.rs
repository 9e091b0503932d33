//! Properties that relate the accessors and the SQL rendering of the query tree.

use vstd::prelude::*;

use crate::common::{lowercase, sep_list, Identifier, SqlText};
use crate::expr::Expr;
use crate::query::{
    filter_excludes, filter_lambda, is_query_of, lateral_subquery, lateral_table_function,
    set_expr_span, table_pivot, table_unpivot, target_function_call_name, target_has_window,
    target_is_star, with_excludes, ColumnFilter, Query, SelectStmt, SelectTarget, SetExpr,
    SetOperation, SetOperator, TableAlias, TableReference, With,
};
use crate::render::{ctes_text, query_text, select_text, set_expr_text, table_ref_text, with_text};

verus! {

/// Turning a set expression into a query keeps its SQL text: the text of the
/// set expression is that of the query, in parentheses when the set
/// expression was itself a parenthesised query.
pub proof fn lemma_into_query_keeps_text(e: SetExpr, q: Query)
    requires
        is_query_of(e, q),
    ensures
        set_expr_text(e) == if e is Query {
            "("@ + query_text(q) + ")"@
        } else {
            query_text(q)
        },
{
    if !(e is Query) {
        assert(query_text(q) =~= set_expr_text(e));
    }
}

/// Turning a set expression into a query keeps its span.
pub proof fn lemma_into_query_keeps_span(e: SetExpr, q: Query)
    requires
        is_query_of(e, q),
    ensures
        q.span == set_expr_span(e),
{
}

/// Wrapping a query as a set expression and turning that back into a query
/// gives the query back.
pub proof fn lemma_into_query_unwraps(q: Query, r: Query)
    requires
        is_query_of(SetExpr::Query(Box::new(q)), r),
    ensures
        r == q,
{
}

/// A star target is no function call, and a call of a window function has no
/// plain function-call name.
pub proof fn lemma_target_kinds_exclusive(t: SelectTarget)
    ensures
        target_is_star(t) ==> !target_has_window(t) && target_function_call_name(t) is None,
        target_has_window(t) ==> target_function_call_name(t) is None,
{
}

/// Setting the excluded columns of a target keeps whether it is a star, and a
/// second exclusion replaces the first.
pub proof fn lemma_exclude_keeps_star(t: SelectTarget, a: Vec<Identifier>, b: Vec<Identifier>)
    ensures
        target_is_star(with_excludes(t, a)) == target_is_star(t),
        with_excludes(with_excludes(t, a), b) == with_excludes(t, b),
{
}

/// After an exclusion, a star-columns target renders as its qualified name,
/// `EXCLUDE` and the excluded columns.
pub proof fn lemma_exclude_text(t: SelectTarget, ex: Vec<Identifier>)
    requires
        t is StarColumns,
    ensures
        with_excludes(t, ex).sql_text() == sep_list(t->qualified@, "."@) + " EXCLUDE ("@
            + sep_list(ex@, ", "@) + ")"@,
{
}

/// A column filter either excludes columns or selects them by a lambda, never both.
pub proof fn lemma_filter_kinds_exclusive(f: ColumnFilter)
    ensures
        filter_excludes(f) is Some <==> filter_lambda(f) is None,
{
}

/// Only a named table has a pivot or an unpivot, and no table reference is both
/// a lateral table function and a lateral subquery.
pub proof fn lemma_table_reference_kinds(t: TableReference)
    ensures
        table_pivot(t) is Some ==> t is Table,
        table_unpivot(t) is Some ==> t is Table,
        !(lateral_table_function(t) && lateral_subquery(t)),
{
}

/// A subquery that is neither lateral nor aliased renders as the same query
/// does when it is a set expression: in parentheses.
pub proof fn lemma_subquery_text(t: TableReference)
    requires
        t matches TableReference::Subquery { lateral, alias, .. } && !lateral && alias is None,
    ensures
        table_ref_text(t) == set_expr_text(SetExpr::Query(t->subquery)),
{
    assert(table_ref_text(t) =~= set_expr_text(SetExpr::Query(t->subquery)));
}

/// A set operation renders as its left side, its operator keyword with a
/// space on each side, `ALL ` exactly when the operation keeps duplicates, and
/// its right side; alike for `UNION`, `EXCEPT` and `INTERSECT`.
pub proof fn lemma_set_operation_text(op: SetOperation)
    ensures
        !op.all ==> set_expr_text(SetExpr::SetOperation(Box::new(op))) == set_expr_text(*op.left)
            + match op.op {
            SetOperator::Union => " UNION "@,
            SetOperator::Except => " EXCEPT "@,
            SetOperator::Intersect => " INTERSECT "@,
        } + set_expr_text(*op.right),
        op.all ==> set_expr_text(SetExpr::SetOperation(Box::new(op))) == set_expr_text(*op.left)
            + match op.op {
            SetOperator::Union => " UNION "@,
            SetOperator::Except => " EXCEPT "@,
            SetOperator::Intersect => " INTERSECT "@,
        } + "ALL "@ + set_expr_text(*op.right),
{
}

/// A `WITH` clause renders as its common table expressions, comma-separated,
/// preceded by `RECURSIVE ` exactly when it is recursive; a query with such a
/// clause starts with `WITH `, that text and a space.
pub proof fn lemma_with_text(w: With, q: Query)
    ensures
        !w.recursive ==> with_text(w) == ctes_text(w.ctes@),
        w.recursive ==> with_text(w) == "RECURSIVE "@ + ctes_text(w.ctes@),
        q.with == Some(w) ==> ("WITH "@ + with_text(w) + " "@).is_prefix_of(query_text(q)),
{
    if q.with == Some(w) {
        let p = "WITH "@ + with_text(w) + " "@;
        assert(query_text(q).subrange(0, p.len() as int) =~= p);
    }
}

/// The text that hints add after `SELECT `: the hints and a space, or nothing.
pub open spec fn hints_prefix(s: SelectStmt) -> Seq<char> {
    match s.hints {
        Some(h) => h.sql_text() + " "@,
        None => Seq::empty(),
    }
}

/// `DISTINCT ` follows `SELECT ` and the hints exactly in a distinct statement:
/// a distinct statement's text starts with `SELECT `, the hints and `DISTINCT `;
/// without hints and `TOP`, a statement that is not distinct starts with
/// `SELECT ` and its select list.
pub proof fn lemma_select_distinct(s: SelectStmt)
    ensures
        s.distinct ==> ("SELECT "@ + hints_prefix(s) + "DISTINCT "@).is_prefix_of(select_text(s)),
        !s.distinct && s.hints is None && s.top_n is None ==> ("SELECT "@ + sep_list(
            s.select_list@,
            ", "@,
        )).is_prefix_of(select_text(s)),
{
    if s.distinct {
        let p = "SELECT "@ + hints_prefix(s) + "DISTINCT "@;
        assert(select_text(s).subrange(0, p.len() as int) =~= p);
    }
    if !s.distinct && s.hints is None && s.top_n is None {
        let p = "SELECT "@ + sep_list(s.select_list@, ", "@);
        assert(select_text(s).subrange(0, p.len() as int) =~= p);
    }
}

/// An alias of a subquery renders after it as ` AS ` and the alias, lateral or
/// not; and a lateral subquery is the same subquery preceded by `LATERAL `.
pub proof fn lemma_subquery_alias(span: crate::common::Span, lateral: bool, subquery: Box<Query>, a: TableAlias)
    ensures
        table_ref_text(
            TableReference::Subquery { span, lateral, subquery, alias: Some(a) },
        ) == table_ref_text(TableReference::Subquery { span, lateral, subquery, alias: None })
            + " AS "@ + a.sql_text(),
        table_ref_text(TableReference::Subquery { span, lateral: true, subquery, alias: None })
            == "LATERAL "@ + table_ref_text(
            TableReference::Subquery { span, lateral: false, subquery, alias: None },
        ),
{
    assert(table_ref_text(TableReference::Subquery { span, lateral, subquery, alias: Some(a) })
        =~= table_ref_text(TableReference::Subquery { span, lateral, subquery, alias: None })
        + " AS "@ + a.sql_text());
    assert(table_ref_text(TableReference::Subquery { span, lateral: true, subquery, alias: None })
        =~= "LATERAL "@ + table_ref_text(
        TableReference::Subquery { span, lateral: false, subquery, alias: None },
    ));
}

/// A select item that calls a function is either a window call or has a
/// function-call name, never both; without a window the name is the
/// lower-cased function name, whatever the call's `DISTINCT` flag and arguments.
pub proof fn lemma_function_call_name(t: SelectTarget)
    ensures
        match t {
            SelectTarget::AliasedExpr { expr, .. } => match *expr {
                Expr::FunctionCall { func, .. } => {
                    &&& target_has_window(t) <==> target_function_call_name(t) is None
                    &&& func.window is None ==> target_function_call_name(t) == Some(
                        lowercase(func.name.name@),
                    )
                },
                _ => true,
            },
            SelectTarget::StarColumns { .. } => true,
        },
{
}

} // verus!
