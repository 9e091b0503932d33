//! What each query node renders as, stated clause by clause in terms of its
//! fields and the texts of its parts.

use vstd::prelude::*;

use crate::common::{decimal, identifier_text, sep_list, SqlText};
use crate::expr::{expr_text, exprs_text, Expr};
use crate::query::{
    ChangesInterval, ColumnFilter, GroupBy, Indirection, Join, JoinCondition, JoinOperator,
    OrderByExpr, Pivot, Query, SelectStmt, SelectTarget, SetExpr, TableAlias, TableReference,
    TemporalClause, TimeTravelPoint, Unpivot, CTE,
};
use crate::render::{
    cte_text, query_text, select_head_text, select_tail_text, select_text, set_expr_text,
    table_ref_text, table_refs_text, with_text,
};

verus! {

/// A query renders as `WITH`, its clause and a space when it has one; then its
/// body; then ` ORDER BY ` and the items only when there are items; ` LIMIT `
/// and the limits only when there are limits; ` OFFSET ` and the offset when
/// set; and ` IGNORE_RESULT` when the result is ignored.
#[verifier::rlimit(80)]
pub proof fn lemma_query_clauses(q: Query)
    ensures
        query_text(q) == (match q.with {
            Some(w) => "WITH "@ + with_text(w) + " "@,
            None => Seq::empty(),
        }) + set_expr_text(q.body) + (if q.order_by@.len() > 0 {
            " ORDER BY "@ + sep_list(q.order_by@, ", "@)
        } else {
            Seq::empty()
        }) + (if q.limit@.len() > 0 {
            " LIMIT "@ + exprs_text(q.limit@)
        } else {
            Seq::empty()
        }) + (match q.offset {
            Some(e) => " OFFSET "@ + expr_text(e),
            None => Seq::empty(),
        }) + (if q.ignore_result {
            " IGNORE_RESULT"@
        } else {
            Seq::empty()
        }),
{
    let w = match q.with {
        Some(w) => "WITH "@ + with_text(w) + " "@,
        None => Seq::empty(),
    };
    let o = if q.order_by@.len() > 0 {
        " ORDER BY "@ + sep_list(q.order_by@, ", "@)
    } else {
        Seq::empty()
    };
    let l = if q.limit@.len() > 0 {
        " LIMIT "@ + exprs_text(q.limit@)
    } else {
        Seq::empty()
    };
    let f = match q.offset {
        Some(e) => " OFFSET "@ + expr_text(e),
        None => Seq::empty(),
    };
    let i = if q.ignore_result {
        " IGNORE_RESULT"@
    } else {
        Seq::empty()
    };
    assert(crate::render::query_tail_text(q) == o + l + f + i);
    assert(query_text(q) == w + set_expr_text(q.body) + (o + l + f + i));
    assert(query_text(q) =~= w + set_expr_text(q.body) + o + l + f + i);
}

/// A common table expression renders as its alias, ` AS `, `MATERIALIZED `
/// exactly when it is materialized, and its query in parentheses.
pub proof fn lemma_cte_text(c: CTE)
    ensures
        c.materialized ==> cte_text(c) == c.alias.sql_text() + " AS MATERIALIZED ("@ + query_text(
            *c.query,
        ) + ")"@,
        !c.materialized ==> cte_text(c) == c.alias.sql_text() + " AS ("@ + query_text(*c.query)
            + ")"@,
{
    reveal_strlit(" AS ");
    reveal_strlit("MATERIALIZED ");
    reveal_strlit("(");
    reveal_strlit(" AS MATERIALIZED (");
    reveal_strlit(" AS (");
    assert(cte_text(c) =~= if c.materialized {
        c.alias.sql_text() + " AS MATERIALIZED ("@ + query_text(*c.query) + ")"@
    } else {
        c.alias.sql_text() + " AS ("@ + query_text(*c.query) + ")"@
    });
}

/// A `SELECT` statement in a set expression renders as itself; a query in one
/// renders in parentheses; `VALUES` rows render after `VALUES`, each in
/// parentheses, separated by `", "`.
pub proof fn lemma_set_expr_kinds(e: SetExpr)
    ensures
        e matches SetExpr::Select(s) ==> set_expr_text(e) == select_text(*s),
        e matches SetExpr::Query(q) ==> set_expr_text(e) == "("@ + query_text(*q) + ")"@,
        e matches SetExpr::Values { values, .. } ==> set_expr_text(e) == "VALUES"@ + sep_list(
            values@,
            ", "@,
        ),
{
}

/// The text of a row of `VALUES` or of a grouping set: its expressions in parentheses.
pub proof fn lemma_row_text(row: Vec<Expr>)
    ensures
        row.sql_text() == "("@ + exprs_text(row@) + ")"@,
{
}

/// `text` when `b` holds, else nothing.
pub open spec fn present(b: bool, text: Seq<char>) -> Seq<char> {
    if b {
        text
    } else {
        Seq::empty()
    }
}

/// `kw` and the text of `e` when there is an `e`, else nothing.
pub open spec fn expr_clause(kw: Seq<char>, e: Option<Expr>) -> Seq<char> {
    match e {
        Some(e) => kw + expr_text(e),
        None => Seq::empty(),
    }
}

/// A `SELECT` statement renders as its head, then ` FROM ` and the table
/// references only when there are some, then the clauses after `FROM`.
pub proof fn lemma_select_parts(s: SelectStmt)
    ensures
        select_text(s) == select_head_text(s) + present(
            s.from@.len() > 0,
            " FROM "@ + table_refs_text(s.from@),
        ) + select_tail_text(s),
{
}

/// The head of a `SELECT` statement is `SELECT `; the hints and a space when it
/// has hints; `DISTINCT ` when distinct; `TOP `, the number and a space when it
/// has a `TOP`; and the select list.
pub proof fn lemma_select_head(s: SelectStmt)
    ensures
        select_head_text(s) == "SELECT "@ + (match s.hints {
            Some(h) => h.sql_text() + " "@,
            None => Seq::empty(),
        }) + present(s.distinct, "DISTINCT "@) + (match s.top_n {
            Some(n) => "TOP "@ + decimal(n as nat) + " "@,
            None => Seq::empty(),
        }) + sep_list(s.select_list@, ", "@),
{
}

/// After `FROM` come ` WHERE `, ` GROUP BY `, ` HAVING `, ` WINDOW ` and
/// ` QUALIFY ` clauses, in that order, each only when present.
pub proof fn lemma_select_tail(s: SelectStmt)
    ensures
        select_tail_text(s) == expr_clause(" WHERE "@, s.selection) + (match s.group_by {
            Some(g) => " GROUP BY "@ + g.sql_text(),
            None => Seq::empty(),
        }) + expr_clause(" HAVING "@, s.having) + (match s.window_list {
            Some(ws) => " WINDOW "@ + sep_list(ws@, ", "@),
            None => Seq::empty(),
        }) + expr_clause(" QUALIFY "@, s.qualify),
{
}

/// Each kind of `GROUP BY` renders with its own keywords.
pub proof fn lemma_group_by_kinds(g: GroupBy)
    ensures
        g matches GroupBy::Normal(es) ==> g.sql_text() == exprs_text(es@),
        g is All ==> g.sql_text() == "ALL"@,
        g matches GroupBy::GroupingSets(sets) ==> g.sql_text() == "GROUPING SETS ("@ + sep_list(
            sets@,
            ", "@,
        ) + ")"@,
        g matches GroupBy::Cube(es) ==> g.sql_text() == "CUBE ("@ + exprs_text(es@) + ")"@,
        g matches GroupBy::Rollup(es) ==> g.sql_text() == "ROLLUP ("@ + exprs_text(es@) + ")"@,
{
}

/// An `ORDER BY` item renders as its expression, then ` ASC` or ` DESC` when
/// a direction is given, then ` NULLS FIRST` or ` NULLS LAST` when a null
/// placement is given.
pub proof fn lemma_order_by_text(o: OrderByExpr)
    ensures
        o.sql_text() == expr_text(o.expr) + (match o.asc {
            Some(true) => " ASC"@,
            Some(false) => " DESC"@,
            None => Seq::empty(),
        }) + match o.nulls_first {
            Some(true) => " NULLS FIRST"@,
            Some(false) => " NULLS LAST"@,
            None => Seq::empty(),
        },
{
}

/// An aliased select item renders as its expression, then ` AS ` and the alias
/// when it has one; a star item as its dot-separated qualified name, followed
/// by ` EXCLUDE (` the excluded columns `)` when it excludes columns; a star
/// item with a lambda as `COLUMNS(` the lambda `)`.
pub proof fn lemma_select_target_text(t: SelectTarget)
    ensures
        t matches SelectTarget::AliasedExpr { expr, alias } ==> t.sql_text() == expr_text(*expr)
            + match alias {
            Some(a) => " AS "@ + identifier_text(a),
            None => Seq::empty(),
        },
        t matches SelectTarget::StarColumns { qualified, column_filter } ==> t.sql_text()
            == match column_filter {
            None => sep_list(qualified@, "."@),
            Some(ColumnFilter::Excludes(ex)) => sep_list(qualified@, "."@) + " EXCLUDE ("@
                + sep_list(ex@, ", "@) + ")"@,
            Some(ColumnFilter::Lambda(l)) => "COLUMNS("@ + l.sql_text() + ")"@,
        },
{
}

/// A part of a qualified name renders as its identifier, or as `*`.
pub proof fn lemma_indirection_text(i: Indirection)
    ensures
        i matches Indirection::Identifier(id) ==> i.sql_text() == identifier_text(id),
        i is Star ==> i.sql_text() == "*"@,
{
}

/// A table alias renders as its name, followed by its columns in parentheses
/// only when it has columns.
pub proof fn lemma_table_alias_text(a: TableAlias)
    ensures
        a.columns@.len() == 0 ==> a.sql_text() == identifier_text(a.name),
        a.columns@.len() > 0 ==> a.sql_text() == identifier_text(a.name) + "("@ + sep_list(
            a.columns@,
            ", "@,
        ) + ")"@,
{
}

/// Each time-travel point renders in parentheses with its keyword and `=>`; a
/// snapshot id stands in single quotes; a stream name is dot-qualified by the
/// catalog and database that are given.
pub proof fn lemma_time_travel_text(p: TimeTravelPoint)
    ensures
        p matches TimeTravelPoint::Snapshot(sid) ==> p.sql_text() == "(SNAPSHOT => '"@ + sid@
            + "')"@,
        p matches TimeTravelPoint::Timestamp(ts) ==> p.sql_text() == "(TIMESTAMP => "@ + expr_text(
            *ts,
        ) + ")"@,
        p matches TimeTravelPoint::Offset(n) ==> p.sql_text() == "(OFFSET => "@ + expr_text(*n)
            + ")"@,
        p matches TimeTravelPoint::Stream { catalog, database, name } ==> p.sql_text()
            == "(STREAM => "@ + (match catalog {
            Some(c) => identifier_text(c) + "."@,
            None => Seq::empty(),
        }) + (match database {
            Some(d) => identifier_text(d) + "."@,
            None => Seq::empty(),
        }) + identifier_text(name) + ")"@,
{
}

/// A changes interval renders with `APPEND_ONLY` exactly when it is append-only
/// (else `DEFAULT`), its start point after `) AT `, and its end point after
/// ` END ` when it has one; a time-travel clause renders as `AT ` and the point.
pub proof fn lemma_temporal_text(c: ChangesInterval, t: TemporalClause)
    ensures
        c.sql_text() == "CHANGES (INFORMATION => "@ + present(c.append_only, "APPEND_ONLY"@)
            + present(!c.append_only, "DEFAULT"@) + ") AT "@ + c.at_point.sql_text() + match c.end_point {
            Some(e) => " END "@ + e.sql_text(),
            None => Seq::empty(),
        },
        t matches TemporalClause::TimeTravel(p) ==> t.sql_text() == "AT "@ + p.sql_text(),
        t matches TemporalClause::Changes(ch) ==> t.sql_text() == ch.sql_text(),
{
    assert(c.sql_text() =~= "CHANGES (INFORMATION => "@ + present(c.append_only, "APPEND_ONLY"@)
        + present(!c.append_only, "DEFAULT"@) + ") AT "@ + c.at_point.sql_text() + match c.end_point {
        Some(e) => " END "@ + e.sql_text(),
        None => Seq::empty(),
    });
}

/// A pivot renders as `PIVOT(` aggregate ` FOR ` column ` IN (` values `))`;
/// an unpivot likewise with `UNPIVOT(` and the column names.
pub proof fn lemma_pivot_text(p: Pivot, u: Unpivot)
    ensures
        p.sql_text() == "PIVOT("@ + expr_text(p.aggregate) + " FOR "@ + identifier_text(
            p.value_column,
        ) + " IN ("@ + exprs_text(p.values@) + "))"@,
        u.sql_text() == "UNPIVOT("@ + identifier_text(u.value_column) + " FOR "@ + identifier_text(
            u.column_name,
        ) + " IN ("@ + sep_list(u.names@, ", "@) + "))"@,
{
}

/// The keywords a join operator renders as.
pub open spec fn join_keywords(op: JoinOperator) -> Seq<char> {
    match op {
        JoinOperator::Inner => "INNER JOIN"@,
        JoinOperator::LeftOuter => "LEFT OUTER JOIN"@,
        JoinOperator::RightOuter => "RIGHT OUTER JOIN"@,
        JoinOperator::FullOuter => "FULL OUTER JOIN"@,
        JoinOperator::LeftSemi => "LEFT SEMI JOIN"@,
        JoinOperator::RightSemi => "RIGHT SEMI JOIN"@,
        JoinOperator::LeftAnti => "LEFT ANTI JOIN"@,
        JoinOperator::RightAnti => "RIGHT ANTI JOIN"@,
        JoinOperator::CrossJoin => "CROSS JOIN"@,
    }
}

/// A join renders as its left side; ` NATURAL` exactly for a natural join; a
/// space and the operator's keywords; a space and its right side; then
/// ` ON ` and the condition, or ` USING(` and the columns `)`, or nothing for a
/// natural join or one without a condition.
pub proof fn lemma_join_text(span: crate::common::Span, j: Join)
    ensures
        table_ref_text(TableReference::Join { span, join: j }) == table_ref_text(*j.left) + present(
            j.condition is Natural,
            " NATURAL"@,
        ) + " "@ + join_keywords(j.op) + " "@ + table_ref_text(*j.right) + match j.condition {
            JoinCondition::On(e) => " ON "@ + expr_text(*e),
            JoinCondition::Using(ids) => " USING("@ + sep_list(ids@, ", "@) + ")"@,
            _ => Seq::empty(),
        },
{
    reveal_strlit(" ");
    reveal_strlit(" INNER JOIN");
    reveal_strlit("INNER JOIN");
    reveal_strlit(" LEFT OUTER JOIN");
    reveal_strlit("LEFT OUTER JOIN");
    reveal_strlit(" RIGHT OUTER JOIN");
    reveal_strlit("RIGHT OUTER JOIN");
    reveal_strlit(" FULL OUTER JOIN");
    reveal_strlit("FULL OUTER JOIN");
    reveal_strlit(" LEFT SEMI JOIN");
    reveal_strlit("LEFT SEMI JOIN");
    reveal_strlit(" RIGHT SEMI JOIN");
    reveal_strlit("RIGHT SEMI JOIN");
    reveal_strlit(" LEFT ANTI JOIN");
    reveal_strlit("LEFT ANTI JOIN");
    reveal_strlit(" RIGHT ANTI JOIN");
    reveal_strlit("RIGHT ANTI JOIN");
    reveal_strlit(" CROSS JOIN");
    reveal_strlit("CROSS JOIN");
    assert(crate::render::join_operator_text(j.op) =~= " "@ + join_keywords(j.op));
    assert(table_ref_text(TableReference::Join { span, join: j }) =~= table_ref_text(*j.left)
        + present(j.condition is Natural, " NATURAL"@) + " "@ + join_keywords(j.op) + " "@
        + table_ref_text(*j.right) + match j.condition {
        JoinCondition::On(e) => " ON "@ + expr_text(*e),
        JoinCondition::Using(ids) => " USING("@ + sep_list(ids@, ", "@) + ")"@,
        _ => Seq::empty(),
    });
}

/// A named table renders as its dot-qualified name; then a space and its
/// temporal clause when it has one; ` WITH CONSUME` when it is consumed;
/// ` AS ` and its alias when it has one; and a space before its pivot and
/// before its unpivot when it has them.
pub proof fn lemma_named_table_text(t: TableReference)
    ensures
        t matches TableReference::Table {
            catalog,
            database,
            table,
            alias,
            temporal,
            consume,
            pivot,
            unpivot,
            ..
        } ==> table_ref_text(t) == (match catalog {
            Some(c) => identifier_text(c) + "."@,
            None => Seq::empty(),
        }) + (match database {
            Some(d) => identifier_text(d) + "."@,
            None => Seq::empty(),
        }) + identifier_text(table) + (match temporal {
            Some(tc) => " "@ + tc.sql_text(),
            None => Seq::empty(),
        }) + present(consume, " WITH CONSUME"@) + (match alias {
            Some(a) => " AS "@ + a.sql_text(),
            None => Seq::empty(),
        }) + (match pivot {
            Some(p) => " "@ + (*p).sql_text(),
            None => Seq::empty(),
        }) + match unpivot {
            Some(u) => " "@ + (*u).sql_text(),
            None => Seq::empty(),
        },
{
}

/// A table function renders as `LATERAL ` when lateral, its name, and in
/// parentheses its positional arguments, a `,` only when there are both
/// positional and named arguments, and its `name=>value` arguments separated
/// by `,`; then ` AS ` and its alias when it has one.
pub proof fn lemma_table_function_text(t: TableReference)
    ensures
        t matches TableReference::TableFunction { lateral, name, params, named_params, alias, .. }
            ==> table_ref_text(t) == present(lateral, "LATERAL "@) + identifier_text(name) + "("@
            + exprs_text(params@) + present(
            params@.len() > 0 && named_params@.len() > 0,
            ","@,
        ) + sep_list(named_params@, ","@) + ")"@ + match alias {
            Some(a) => " AS "@ + a.sql_text(),
            None => Seq::empty(),
        },
{
}

/// A staged location renders as the location, its options only when some
/// option is set, and ` AS ` and its alias when it has one.
pub proof fn lemma_location_text(t: TableReference)
    ensures
        t matches TableReference::Location { location, options, alias, .. } ==> table_ref_text(t)
            == location.sql_text() + present(
            options.files is Some || options.file_format is Some || options.pattern is Some,
            options.sql_text(),
        ) + match alias {
            Some(a) => " AS "@ + a.sql_text(),
            None => Seq::empty(),
        },
{
}

/// Lists of table references and of common table expressions are separated by `", "`.
pub proof fn lemma_ref_lists(ts: Seq<TableReference>, cs: Seq<CTE>)
    ensures
        ts.len() == 1 ==> table_refs_text(ts) == table_ref_text(ts[0]),
        ts.len() > 1 ==> table_refs_text(ts) == table_refs_text(ts.drop_last()) + ", "@
            + table_ref_text(ts.last()),
        cs.len() == 1 ==> crate::render::ctes_text(cs) == cte_text(cs[0]),
        cs.len() > 1 ==> crate::render::ctes_text(cs) == crate::render::ctes_text(cs.drop_last())
            + ", "@ + cte_text(cs.last()),
        ts.len() == 0 ==> table_refs_text(ts) == Seq::<char>::empty(),
        cs.len() == 0 ==> crate::render::ctes_text(cs) == Seq::<char>::empty(),
{
}

} // verus!
