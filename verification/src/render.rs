//! SQL text of the query nodes: for each node a spec function that says what
//! its text is, and the function that writes it.

use vstd::prelude::*;

use crate::common::{
    decimal, flag_text, identifier_text, opt_text, sep_list, sql_string, write_decimal, write_flag, write_opt,
    write_separated_list, Identifier, SqlText,
};
use crate::expr::{
    exprs_text, expr_text, write_exprs, Expr, FileLocation, SelectStageOptions, WindowDefinition,
};
use crate::query::{
    ChangesInterval, ColumnFilter, GroupBy, Indirection, JoinCondition, JoinOperator, OrderByExpr,
    Pivot, Query, SelectStmt, SelectTarget, SetExpr, SetOperator, TableAlias, TableReference,
    TemporalClause, TimeTravelPoint, Unpivot, With, CTE,
};

verus! {

/// `catalog.database.name`, each of the first two left out (with its dot) when absent.
pub open spec fn dotted_name_text(
    catalog: Option<Identifier>,
    database: Option<Identifier>,
    name: Identifier,
) -> Seq<char> {
    (match catalog {
        Some(c) => identifier_text(c) + "."@,
        None => Seq::empty(),
    }) + (match database {
        Some(d) => identifier_text(d) + "."@,
        None => Seq::empty(),
    }) + identifier_text(name)
}

/// Appends `catalog.database.name` to `out`, each of the first two left out when absent.
pub fn write_dotted_name(
    out: &mut String,
    catalog: &Option<Identifier>,
    database: &Option<Identifier>,
    name: &Identifier,
)
    ensures
        final(out)@ == old(out)@ + dotted_name_text(*catalog, *database, *name),
{
    let ghost start = out@;
    if let Some(c) = catalog {
        c.write_sql(out);
        out.append(".");
    }
    if let Some(d) = database {
        d.write_sql(out);
        out.append(".");
    }
    name.write_sql(out);
    assert(out@ =~= start + dotted_name_text(*catalog, *database, *name));
}

impl SqlText for TableAlias {
    open spec fn sql_text(&self) -> Seq<char> {
        identifier_text(self.name) + if self.columns@.len() == 0 {
            Seq::empty()
        } else {
            "("@ + sep_list(self.columns@, ", "@) + ")"@
        }
    }

    fn write_sql(&self, out: &mut String) {
        let ghost start = out@;
        self.name.write_sql(out);
        if self.columns.len() != 0 {
            out.append("(");
            write_separated_list(out, self.columns.as_slice(), ", ");
            out.append(")");
        }
        assert(out@ =~= start + self.sql_text());
    }
}

impl SqlText for OrderByExpr {
    open spec fn sql_text(&self) -> Seq<char> {
        expr_text(self.expr) + (match self.asc {
            Some(true) => " ASC"@,
            Some(false) => " DESC"@,
            None => Seq::empty(),
        }) + match self.nulls_first {
            Some(true) => " NULLS FIRST"@,
            Some(false) => " NULLS LAST"@,
            None => Seq::empty(),
        }
    }

    fn write_sql(&self, out: &mut String) {
        let ghost start = out@;
        self.expr.write_sql(out);
        if let Some(asc) = self.asc {
            if asc {
                out.append(" ASC");
            } else {
                out.append(" DESC");
            }
        }
        if let Some(nulls_first) = self.nulls_first {
            if nulls_first {
                out.append(" NULLS FIRST");
            } else {
                out.append(" NULLS LAST");
            }
        }
        assert(out@ =~= start + self.sql_text());
    }
}

impl SqlText for Indirection {
    open spec fn sql_text(&self) -> Seq<char> {
        match self {
            Indirection::Identifier(ident) => identifier_text(*ident),
            Indirection::Star(_) => "*"@,
        }
    }

    fn write_sql(&self, out: &mut String) {
        match self {
            Indirection::Identifier(ident) => ident.write_sql(out),
            Indirection::Star(_) => out.append("*"),
        }
    }
}

impl SqlText for SelectTarget {
    open spec fn sql_text(&self) -> Seq<char> {
        match self {
            SelectTarget::AliasedExpr { expr, alias } => expr_text(**expr) + match alias {
                Some(ident) => " AS "@ + identifier_text(*ident),
                None => Seq::empty(),
            },
            SelectTarget::StarColumns { qualified, column_filter } => match column_filter {
                Some(ColumnFilter::Excludes(excludes)) => sep_list(qualified@, "."@)
                    + " EXCLUDE ("@ + sep_list(excludes@, ", "@) + ")"@,
                Some(ColumnFilter::Lambda(lambda)) => "COLUMNS("@ + lambda.sql_text() + ")"@,
                None => sep_list(qualified@, "."@),
            },
        }
    }

    fn write_sql(&self, out: &mut String) {
        let ghost start = out@;
        match self {
            SelectTarget::AliasedExpr { expr, alias } => {
                expr.write_sql(out);
                if let Some(ident) = alias {
                    out.append(" AS ");
                    ident.write_sql(out);
                }
            },
            SelectTarget::StarColumns { qualified, column_filter } => match column_filter {
                Some(ColumnFilter::Excludes(excludes)) => {
                    write_separated_list(out, qualified.as_slice(), ".");
                    out.append(" EXCLUDE (");
                    write_separated_list(out, excludes.as_slice(), ", ");
                    out.append(")");
                },
                Some(ColumnFilter::Lambda(lambda)) => {
                    out.append("COLUMNS(");
                    lambda.write_sql(out);
                    out.append(")");
                },
                None => {
                    write_separated_list(out, qualified.as_slice(), ".");
                },
            },
        }
        assert(out@ =~= start + self.sql_text());
    }
}

impl SqlText for TimeTravelPoint {
    open spec fn sql_text(&self) -> Seq<char> {
        match self {
            TimeTravelPoint::Snapshot(sid) => "(SNAPSHOT => '"@ + sid@ + "')"@,
            TimeTravelPoint::Timestamp(ts) => "(TIMESTAMP => "@ + expr_text(**ts) + ")"@,
            TimeTravelPoint::Offset(num) => "(OFFSET => "@ + expr_text(**num) + ")"@,
            TimeTravelPoint::Stream { catalog, database, name } => "(STREAM => "@
                + dotted_name_text(*catalog, *database, *name) + ")"@,
        }
    }

    fn write_sql(&self, out: &mut String) {
        let ghost start = out@;
        match self {
            TimeTravelPoint::Snapshot(sid) => {
                out.append("(SNAPSHOT => '");
                out.append(sid.as_str());
                out.append("')");
            },
            TimeTravelPoint::Timestamp(ts) => {
                out.append("(TIMESTAMP => ");
                ts.write_sql(out);
                out.append(")");
            },
            TimeTravelPoint::Offset(num) => {
                out.append("(OFFSET => ");
                num.write_sql(out);
                out.append(")");
            },
            TimeTravelPoint::Stream { catalog, database, name } => {
                out.append("(STREAM => ");
                write_dotted_name(out, catalog, database, name);
                out.append(")");
            },
        }
        assert(out@ =~= start + self.sql_text());
    }
}

impl SqlText for Pivot {
    open spec fn sql_text(&self) -> Seq<char> {
        "PIVOT("@ + expr_text(self.aggregate) + " FOR "@ + identifier_text(self.value_column)
            + " IN ("@ + exprs_text(self.values@) + "))"@
    }

    fn write_sql(&self, out: &mut String) {
        let ghost start = out@;
        out.append("PIVOT(");
        self.aggregate.write_sql(out);
        out.append(" FOR ");
        self.value_column.write_sql(out);
        out.append(" IN (");
        write_exprs(out, &self.values);
        out.append("))");
        assert(out@ =~= start + self.sql_text());
    }
}

impl SqlText for Unpivot {
    open spec fn sql_text(&self) -> Seq<char> {
        "UNPIVOT("@ + identifier_text(self.value_column) + " FOR "@ + identifier_text(
            self.column_name,
        ) + " IN ("@ + sep_list(self.names@, ", "@) + "))"@
    }

    fn write_sql(&self, out: &mut String) {
        let ghost start = out@;
        out.append("UNPIVOT(");
        self.value_column.write_sql(out);
        out.append(" FOR ");
        self.column_name.write_sql(out);
        out.append(" IN (");
        write_separated_list(out, self.names.as_slice(), ", ");
        out.append("))");
        assert(out@ =~= start + self.sql_text());
    }
}

impl SqlText for ChangesInterval {
    open spec fn sql_text(&self) -> Seq<char> {
        "CHANGES (INFORMATION => "@ + (if self.append_only {
            "APPEND_ONLY"@
        } else {
            "DEFAULT"@
        }) + ") AT "@ + self.at_point.sql_text() + match self.end_point {
            Some(end_point) => " END "@ + end_point.sql_text(),
            None => Seq::empty(),
        }
    }

    fn write_sql(&self, out: &mut String) {
        let ghost start = out@;
        out.append("CHANGES (INFORMATION => ");
        if self.append_only {
            out.append("APPEND_ONLY");
        } else {
            out.append("DEFAULT");
        }
        out.append(") AT ");
        self.at_point.write_sql(out);
        if let Some(end_point) = &self.end_point {
            out.append(" END ");
            end_point.write_sql(out);
        }
        assert(out@ =~= start + self.sql_text());
    }
}

impl SqlText for TemporalClause {
    open spec fn sql_text(&self) -> Seq<char> {
        match self {
            TemporalClause::TimeTravel(point) => "AT "@ + point.sql_text(),
            TemporalClause::Changes(changes) => changes.sql_text(),
        }
    }

    fn write_sql(&self, out: &mut String) {
        match self {
            TemporalClause::TimeTravel(point) => {
                out.append("AT ");
                point.write_sql(out);
            },
            TemporalClause::Changes(changes) => changes.write_sql(out),
        }
    }
}

impl SqlText for GroupBy {
    open spec fn sql_text(&self) -> Seq<char> {
        match self {
            GroupBy::Normal(exprs) => exprs_text(exprs@),
            GroupBy::All => "ALL"@,
            GroupBy::GroupingSets(sets) => "GROUPING SETS ("@ + sep_list(sets@, ", "@) + ")"@,
            GroupBy::Cube(exprs) => "CUBE ("@ + exprs_text(exprs@) + ")"@,
            GroupBy::Rollup(exprs) => "ROLLUP ("@ + exprs_text(exprs@) + ")"@,
        }
    }

    fn write_sql(&self, out: &mut String) {
        let ghost start = out@;
        match self {
            GroupBy::Normal(exprs) => write_exprs(out, exprs),
            GroupBy::All => out.append("ALL"),
            GroupBy::GroupingSets(sets) => {
                out.append("GROUPING SETS (");
                write_separated_list(out, sets.as_slice(), ", ");
                out.append(")");
            },
            GroupBy::Cube(exprs) => {
                out.append("CUBE (");
                write_exprs(out, exprs);
                out.append(")");
            },
            GroupBy::Rollup(exprs) => {
                out.append("ROLLUP (");
                write_exprs(out, exprs);
                out.append(")");
            },
        }
        assert(out@ =~= start + self.sql_text());
    }
}

/// The keyword of a set operator, with a space on each side.
pub open spec fn set_operator_text(op: SetOperator) -> Seq<char> {
    match op {
        SetOperator::Union => " UNION "@,
        SetOperator::Except => " EXCEPT "@,
        SetOperator::Intersect => " INTERSECT "@,
    }
}

/// Appends the keyword of `op`, with a space on each side, to `out`.
pub fn write_set_operator(out: &mut String, op: &SetOperator)
    ensures
        final(out)@ == old(out)@ + set_operator_text(*op),
{
    match op {
        SetOperator::Union => out.append(" UNION "),
        SetOperator::Except => out.append(" EXCEPT "),
        SetOperator::Intersect => out.append(" INTERSECT "),
    }
}

/// The keywords of a join operator, with a leading space.
pub open spec fn join_operator_text(op: JoinOperator) -> Seq<char> {
    match op {
        JoinOperator::Inner => " INNER JOIN"@,
        JoinOperator::LeftOuter => " LEFT OUTER JOIN"@,
        JoinOperator::RightOuter => " RIGHT OUTER JOIN"@,
        JoinOperator::FullOuter => " FULL OUTER JOIN"@,
        JoinOperator::LeftSemi => " LEFT SEMI JOIN"@,
        JoinOperator::RightSemi => " RIGHT SEMI JOIN"@,
        JoinOperator::LeftAnti => " LEFT ANTI JOIN"@,
        JoinOperator::RightAnti => " RIGHT ANTI JOIN"@,
        JoinOperator::CrossJoin => " CROSS JOIN"@,
    }
}

/// Appends the keywords of `op`, with a leading space, to `out`.
pub fn write_join_operator(out: &mut String, op: &JoinOperator)
    ensures
        final(out)@ == old(out)@ + join_operator_text(*op),
{
    match op {
        JoinOperator::Inner => out.append(" INNER JOIN"),
        JoinOperator::LeftOuter => out.append(" LEFT OUTER JOIN"),
        JoinOperator::RightOuter => out.append(" RIGHT OUTER JOIN"),
        JoinOperator::FullOuter => out.append(" FULL OUTER JOIN"),
        JoinOperator::LeftSemi => out.append(" LEFT SEMI JOIN"),
        JoinOperator::RightSemi => out.append(" RIGHT SEMI JOIN"),
        JoinOperator::LeftAnti => out.append(" LEFT ANTI JOIN"),
        JoinOperator::RightAnti => out.append(" RIGHT ANTI JOIN"),
        JoinOperator::CrossJoin => out.append(" CROSS JOIN"),
    }
}

/// What follows the right side of a join: `ON expr`, `USING(columns)`, or nothing.
pub open spec fn join_condition_suffix(c: JoinCondition) -> Seq<char> {
    match c {
        JoinCondition::On(expr) => " ON "@ + expr_text(*expr),
        JoinCondition::Using(idents) => " USING("@ + sep_list(idents@, ", "@) + ")"@,
        _ => Seq::empty(),
    }
}

/// Appends what follows the right side of a join with condition `c` to `out`.
pub fn write_join_condition_suffix(out: &mut String, c: &JoinCondition)
    ensures
        final(out)@ == old(out)@ + join_condition_suffix(*c),
{
    match c {
        JoinCondition::On(expr) => {
            out.append(" ON ");
            expr.write_sql(out);
        },
        JoinCondition::Using(idents) => {
            out.append(" USING(");
            write_separated_list(out, idents.as_slice(), ", ");
            out.append(")");
        },
        _ => {},
    }
}


/// The text of a named table reference.
pub open spec fn table_text(
    catalog: Option<Identifier>,
    database: Option<Identifier>,
    table: Identifier,
    alias: Option<TableAlias>,
    temporal: Option<TemporalClause>,
    consume: bool,
    pivot: Option<Box<Pivot>>,
    unpivot: Option<Box<Unpivot>>,
) -> Seq<char> {
    dotted_name_text(catalog, database, table) + opt_text(" "@, temporal) + flag_text(
        consume,
        " WITH CONSUME"@,
    ) + opt_text(" AS "@, alias) + opt_text(" "@, pivot) + opt_text(" "@, unpivot)
}

/// The text of a table-function reference.
pub open spec fn table_function_text(
    lateral: bool,
    name: Identifier,
    params: Seq<Expr>,
    named_params: Seq<(Identifier, Expr)>,
    alias: Option<TableAlias>,
) -> Seq<char> {
    flag_text(lateral, "LATERAL "@) + identifier_text(name) + "("@ + exprs_text(params) + flag_text(
        params.len() != 0 && named_params.len() != 0,
        ","@,
    ) + sep_list(named_params, ","@) + ")"@ + opt_text(" AS "@, alias)
}

/// The text of a staged-location reference; the options appear only when one is set.
pub open spec fn location_text(
    location: FileLocation,
    options: SelectStageOptions,
    alias: Option<TableAlias>,
) -> Seq<char> {
    location.sql_text() + flag_text(
        !(options.files is None && options.file_format is None && options.pattern is None),
        options.sql_text(),
    ) + opt_text(" AS "@, alias)
}

/// The text of a table reference that holds no query: a table, a table
/// function or a staged location. Empty for the other kinds.
pub open spec fn plain_table_ref_text(t: TableReference) -> Seq<char> {
    match t {
        TableReference::Table {
            catalog,
            database,
            table,
            alias,
            temporal,
            consume,
            pivot,
            unpivot,
            ..
        } => table_text(catalog, database, table, alias, temporal, consume, pivot, unpivot),
        TableReference::TableFunction { lateral, name, params, named_params, alias, .. } =>
            table_function_text(lateral, name, params@, named_params@, alias),
        TableReference::Location { location, options, alias, .. } => location_text(
            location,
            options,
            alias,
        ),
        _ => Seq::empty(),
    }
}

/// Appends the text of a named table reference to `out`.
fn write_table(
    out: &mut String,
    catalog: &Option<Identifier>,
    database: &Option<Identifier>,
    table: &Identifier,
    alias: &Option<TableAlias>,
    temporal: &Option<TemporalClause>,
    consume: bool,
    pivot: &Option<Box<Pivot>>,
    unpivot: &Option<Box<Unpivot>>,
)
    ensures
        final(out)@ == old(out)@ + table_text(
            *catalog,
            *database,
            *table,
            *alias,
            *temporal,
            consume,
            *pivot,
            *unpivot,
        ),
{
    let ghost start = out@;
    write_dotted_name(out, catalog, database, table);
    write_opt(out, " ", temporal);
    write_flag(out, consume, " WITH CONSUME");
    write_opt(out, " AS ", alias);
    write_opt(out, " ", pivot);
    write_opt(out, " ", unpivot);
    assert(out@ =~= start + table_text(
        *catalog,
        *database,
        *table,
        *alias,
        *temporal,
        consume,
        *pivot,
        *unpivot,
    ));
}

/// Appends the text of a table-function reference to `out`.
fn write_table_function(
    out: &mut String,
    lateral: bool,
    name: &Identifier,
    params: &Vec<Expr>,
    named_params: &Vec<(Identifier, Expr)>,
    alias: &Option<TableAlias>,
)
    ensures
        final(out)@ == old(out)@ + table_function_text(
            lateral,
            *name,
            params@,
            named_params@,
            *alias,
        ),
{
    let ghost start = out@;
    write_flag(out, lateral, "LATERAL ");
    name.write_sql(out);
    out.append("(");
    write_exprs(out, params);
    write_flag(out, params.len() != 0 && named_params.len() != 0, ",");
    write_separated_list(out, named_params.as_slice(), ",");
    out.append(")");
    write_opt(out, " AS ", alias);
    assert(out@ =~= start + table_function_text(
        lateral,
        *name,
        params@,
        named_params@,
        *alias,
    ));
}

/// Appends the text of a staged-location reference to `out`.
fn write_location(
    out: &mut String,
    location: &FileLocation,
    options: &SelectStageOptions,
    alias: &Option<TableAlias>,
)
    ensures
        final(out)@ == old(out)@ + location_text(*location, *options, *alias),
{
    let ghost start = out@;
    location.write_sql(out);
    let ghost mid = out@;
    if !options.is_empty() {
        options.write_sql(out);
    }
    assert(out@ =~= mid + flag_text(
        !(options.files is None && options.file_format is None && options.pattern is None),
        options.sql_text(),
    ));
    write_opt(out, " AS ", alias);
    assert(out@ =~= start + location_text(*location, *options, *alias));
}

/// Appends the text of a table reference that holds no query to `out`.
pub fn write_plain_table_ref(out: &mut String, t: &TableReference)
    ensures
        final(out)@ == old(out)@ + plain_table_ref_text(*t),
{
    match t {
        TableReference::Table {
            catalog,
            database,
            table,
            alias,
            temporal,
            consume,
            pivot,
            unpivot,
            ..
        } => write_table(out, catalog, database, table, alias, temporal, *consume, pivot, unpivot),
        TableReference::TableFunction { lateral, name, params, named_params, alias, .. } => {
            write_table_function(out, *lateral, name, params, named_params, alias)
        },
        TableReference::Location { location, options, alias, .. } => {
            write_location(out, location, options, alias)
        },
        _ => {},
    }
}

/// `SELECT` with hints, `DISTINCT`, `TOP n` and the select list.
pub open spec fn select_head_text(s: SelectStmt) -> Seq<char> {
    "SELECT "@ + (match s.hints {
        Some(hints) => hints.sql_text() + " "@,
        None => Seq::empty(),
    }) + flag_text(s.distinct, "DISTINCT "@) + (match s.top_n {
        Some(n) => "TOP "@ + decimal(n as nat) + " "@,
        None => Seq::empty(),
    }) + sep_list(s.select_list@, ", "@)
}

/// The clauses of a `SELECT` statement after `FROM`.
pub open spec fn select_tail_text(s: SelectStmt) -> Seq<char> {
    opt_text(" WHERE "@, s.selection) + opt_text(" GROUP BY "@, s.group_by) + opt_text(
        " HAVING "@,
        s.having,
    ) + (match s.window_list {
        Some(windows) => " WINDOW "@ + sep_list(windows@, ", "@),
        None => Seq::empty(),
    }) + opt_text(" QUALIFY "@, s.qualify)
}

/// Appends `TOP n ` to `out`, when there is an `n`.
fn write_top_n(out: &mut String, top_n: Option<u64>)
    ensures
        final(out)@ == old(out)@ + match top_n {
            Some(n) => "TOP "@ + decimal(n as nat) + " "@,
            None => Seq::empty(),
        },
{
    let ghost start = out@;
    if let Some(topn) = top_n {
        out.append("TOP ");
        write_decimal(out, topn);
        out.append(" ");
        assert(out@ =~= start + "TOP "@ + decimal(topn as nat) + " "@);
    }
}

/// Appends `SELECT`, hints, `DISTINCT`, `TOP n` and the select list of `s` to `out`.
pub fn write_select_head(out: &mut String, s: &SelectStmt)
    ensures
        final(out)@ == old(out)@ + select_head_text(*s),
{
    let ghost start = out@;
    out.append("SELECT ");
    if let Some(hints) = &s.hints {
        hints.write_sql(out);
        out.append(" ");
    }
    let ghost mid = out@;
    assert(mid =~= start + "SELECT "@ + match s.hints {
        Some(hints) => hints.sql_text() + " "@,
        None => Seq::empty(),
    });
    write_flag(out, s.distinct, "DISTINCT ");
    write_top_n(out, s.top_n);
    write_separated_list(out, s.select_list.as_slice(), ", ");
    assert(out@ =~= start + select_head_text(*s));
}

/// Appends ` WINDOW` and the named windows to `out`, when there are any.
fn write_window_clause(out: &mut String, window_list: &Option<Vec<WindowDefinition>>)
    ensures
        final(out)@ == old(out)@ + match *window_list {
            Some(windows) => " WINDOW "@ + sep_list(windows@, ", "@),
            None => Seq::empty(),
        },
{
    let ghost start = out@;
    if let Some(windows) = window_list {
        out.append(" WINDOW ");
        write_separated_list(out, windows.as_slice(), ", ");
        assert(out@ =~= start + " WINDOW "@ + sep_list(windows@, ", "@));
    }
}

/// Appends the clauses of `s` after `FROM` to `out`.
pub fn write_select_tail(out: &mut String, s: &SelectStmt)
    ensures
        final(out)@ == old(out)@ + select_tail_text(*s),
{
    let ghost start = out@;
    write_opt(out, " WHERE ", &s.selection);
    write_opt(out, " GROUP BY ", &s.group_by);
    write_opt(out, " HAVING ", &s.having);
    write_window_clause(out, &s.window_list);
    write_opt(out, " QUALIFY ", &s.qualify);
    assert(out@ =~= start + select_tail_text(*s));
}


/// The clauses of a query after its body: `ORDER BY`, `LIMIT`, `OFFSET`, `IGNORE_RESULT`.
pub open spec fn query_tail_text(q: Query) -> Seq<char> {
    flag_text(q.order_by@.len() != 0, " ORDER BY "@ + sep_list(q.order_by@, ", "@)) + flag_text(
        q.limit@.len() != 0,
        " LIMIT "@ + exprs_text(q.limit@),
    ) + opt_text(" OFFSET "@, q.offset) + flag_text(q.ignore_result, " IGNORE_RESULT"@)
}

/// Appends the clauses of `q` after its body to `out`.
pub fn write_query_tail(out: &mut String, q: &Query)
    ensures
        final(out)@ == old(out)@ + query_tail_text(*q),
{
    let ghost start = out@;
    if q.order_by.len() != 0 {
        out.append(" ORDER BY ");
        write_separated_list(out, q.order_by.as_slice(), ", ");
    }
    let ghost mid1 = out@;
    assert(mid1 =~= start + flag_text(
        q.order_by@.len() != 0,
        " ORDER BY "@ + sep_list(q.order_by@, ", "@),
    ));
    if q.limit.len() != 0 {
        out.append(" LIMIT ");
        write_exprs(out, &q.limit);
    }
    assert(out@ =~= mid1 + flag_text(q.limit@.len() != 0, " LIMIT "@ + exprs_text(q.limit@)));
    write_opt(out, " OFFSET ", &q.offset);
    write_flag(out, q.ignore_result, " IGNORE_RESULT");
    assert(out@ =~= start + query_tail_text(*q));
}

/// The SQL text of a query.
pub open spec fn query_text(q: Query) -> Seq<char>
    decreases q,
{
    (match q.with {
        Some(w) => "WITH "@ + with_text(w) + " "@,
        None => Seq::empty(),
    }) + set_expr_text(q.body) + query_tail_text(q)
}

/// The SQL text of a `WITH` clause, without the keyword `WITH`.
pub open spec fn with_text(w: With) -> Seq<char>
    decreases w,
{
    flag_text(w.recursive, "RECURSIVE "@) + ctes_text(w.ctes@)
}

/// The SQL texts of `cs`, separated by `", "`.
pub open spec fn ctes_text(cs: Seq<CTE>) -> Seq<char>
    decreases cs,
{
    if cs.len() == 0 {
        Seq::empty()
    } else if cs.len() == 1 {
        cte_text(cs[0])
    } else {
        ctes_text(cs.drop_last()) + ", "@ + cte_text(cs.last())
    }
}

/// The SQL text of a common table expression.
pub open spec fn cte_text(c: CTE) -> Seq<char>
    decreases c,
{
    c.alias.sql_text() + " AS "@ + flag_text(c.materialized, "MATERIALIZED "@) + "("@ + query_text(
        *c.query,
    ) + ")"@
}

/// The SQL text of a set expression; a nested query stands in parentheses.
pub open spec fn set_expr_text(e: SetExpr) -> Seq<char>
    decreases e,
{
    match e {
        SetExpr::Select(s) => select_text(*s),
        SetExpr::Query(q) => "("@ + query_text(*q) + ")"@,
        SetExpr::SetOperation(op) => set_expr_text(*op.left) + set_operator_text(op.op)
            + flag_text(op.all, "ALL "@) + set_expr_text(*op.right),
        SetExpr::Values { values, .. } => "VALUES"@ + sep_list(values@, ", "@),
    }
}

/// The SQL text of a `SELECT` statement.
pub open spec fn select_text(s: SelectStmt) -> Seq<char>
    decreases s,
{
    select_head_text(s) + (if s.from@.len() != 0 {
        " FROM "@ + table_refs_text(s.from@)
    } else {
        Seq::empty()
    }) + select_tail_text(s)
}

/// The SQL texts of `ts`, separated by `", "`.
pub open spec fn table_refs_text(ts: Seq<TableReference>) -> Seq<char>
    decreases ts,
{
    if ts.len() == 0 {
        Seq::empty()
    } else if ts.len() == 1 {
        table_ref_text(ts[0])
    } else {
        table_refs_text(ts.drop_last()) + ", "@ + table_ref_text(ts.last())
    }
}

/// The SQL text of a table reference.
pub open spec fn table_ref_text(t: TableReference) -> Seq<char>
    decreases t,
{
    match t {
        TableReference::Subquery { lateral, subquery, alias, .. } => flag_text(
            lateral,
            "LATERAL "@,
        ) + "("@ + query_text(*subquery) + ")"@ + opt_text(" AS "@, alias),
        TableReference::Join { join, .. } => table_ref_text(*join.left) + flag_text(
            join.condition is Natural,
            " NATURAL"@,
        ) + join_operator_text(join.op) + " "@ + table_ref_text(*join.right)
            + join_condition_suffix(join.condition),
        _ => plain_table_ref_text(t),
    }
}


impl Query {
    /// Appends the SQL text of the query to `out`.
    pub fn write_sql(&self, out: &mut String)
        ensures
            final(out)@ == old(out)@ + query_text(*self),
        decreases self,
    {
        let ghost start = out@;
        if let Some(with) = &self.with {
            out.append("WITH ");
            with.write_sql(out);
            out.append(" ");
        }
        let ghost mid = out@;
        assert(mid =~= start + match self.with {
            Some(w) => "WITH "@ + with_text(w) + " "@,
            None => Seq::empty(),
        });
        self.body.write_sql(out);
        write_query_tail(out, self);
        assert(out@ =~= start + query_text(*self));
    }

    /// The SQL text of the query.
    pub fn to_string(&self) -> (s: String)
        ensures
            s@ == query_text(*self),
    {
        let mut s = String::new();
        self.write_sql(&mut s);
        s
    }
}

impl With {
    /// Appends the SQL text of the clause, without the keyword `WITH`, to `out`.
    pub fn write_sql(&self, out: &mut String)
        ensures
            final(out)@ == old(out)@ + with_text(*self),
        decreases self,
    {
        let ghost start = out@;
        write_flag(out, self.recursive, "RECURSIVE ");
        write_ctes(out, &self.ctes);
        assert(out@ =~= start + with_text(*self));
    }

    /// The SQL text of the clause, without the keyword `WITH`.
    pub fn to_string(&self) -> (s: String)
        ensures
            s@ == with_text(*self),
    {
        let mut s = String::new();
        self.write_sql(&mut s);
        s
    }
}

/// Appends the SQL texts of `cs` to `out`, separated by `", "`.
pub fn write_ctes(out: &mut String, cs: &Vec<CTE>)
    ensures
        final(out)@ == old(out)@ + ctes_text(cs@),
    decreases cs,
{
    let ghost start = out@;
    let n = cs.len();
    let mut i: usize = 0;
    assert(cs@.take(0) =~= Seq::<CTE>::empty());
    while i < n
        invariant
            n == cs@.len(),
            i <= n,
            out@ =~= start + ctes_text(cs@.take(i as int)),
        decreases n - i,
    {
        assert(cs@.take(i + 1).drop_last() =~= cs@.take(i as int));
        assert(cs@.take(i + 1).last() == cs@[i as int]);
        if i > 0 {
            out.append(", ");
        }
        assert(decreases_to!(cs => cs@[i as int]));
        cs[i].write_sql(out);
        i = i + 1;
    }
    assert(cs@.take(n as int) =~= cs@);
}

impl CTE {
    /// Appends the SQL text of the common table expression to `out`.
    pub fn write_sql(&self, out: &mut String)
        ensures
            final(out)@ == old(out)@ + cte_text(*self),
        decreases self,
    {
        let ghost start = out@;
        self.alias.write_sql(out);
        out.append(" AS ");
        write_flag(out, self.materialized, "MATERIALIZED ");
        out.append("(");
        self.query.write_sql(out);
        out.append(")");
        assert(out@ =~= start + cte_text(*self));
    }

    /// The SQL text of the common table expression.
    pub fn to_string(&self) -> (s: String)
        ensures
            s@ == cte_text(*self),
    {
        let mut s = String::new();
        self.write_sql(&mut s);
        s
    }
}

impl SetExpr {
    /// Appends the SQL text of the set expression to `out`.
    pub fn write_sql(&self, out: &mut String)
        ensures
            final(out)@ == old(out)@ + set_expr_text(*self),
        decreases self,
    {
        let ghost start = out@;
        match self {
            SetExpr::Select(select_stmt) => select_stmt.write_sql(out),
            SetExpr::Query(query) => {
                out.append("(");
                query.write_sql(out);
                out.append(")");
            },
            SetExpr::SetOperation(set_operation) => {
                set_operation.left.write_sql(out);
                write_set_operator(out, &set_operation.op);
                write_flag(out, set_operation.all, "ALL ");
                set_operation.right.write_sql(out);
            },
            SetExpr::Values { values, .. } => {
                out.append("VALUES");
                write_separated_list(out, values.as_slice(), ", ");
            },
        }
        assert(out@ =~= start + set_expr_text(*self));
    }

    /// The SQL text of the set expression.
    pub fn to_string(&self) -> (s: String)
        ensures
            s@ == set_expr_text(*self),
    {
        let mut s = String::new();
        self.write_sql(&mut s);
        s
    }
}

impl SelectStmt {
    /// Appends the SQL text of the statement to `out`.
    pub fn write_sql(&self, out: &mut String)
        ensures
            final(out)@ == old(out)@ + select_text(*self),
        decreases self,
    {
        let ghost start = out@;
        write_select_head(out, self);
        let ghost mid = out@;
        if self.from.len() != 0 {
            out.append(" FROM ");
            write_table_refs(out, &self.from);
        }
        assert(out@ =~= mid + if self.from@.len() != 0 {
            " FROM "@ + table_refs_text(self.from@)
        } else {
            Seq::empty()
        });
        write_select_tail(out, self);
        assert(out@ =~= start + select_text(*self));
    }

    /// The SQL text of the statement.
    pub fn to_string(&self) -> (s: String)
        ensures
            s@ == select_text(*self),
    {
        let mut s = String::new();
        self.write_sql(&mut s);
        s
    }
}

/// Appends the SQL texts of `ts` to `out`, separated by `", "`.
pub fn write_table_refs(out: &mut String, ts: &Vec<TableReference>)
    ensures
        final(out)@ == old(out)@ + table_refs_text(ts@),
    decreases ts,
{
    let ghost start = out@;
    let n = ts.len();
    let mut i: usize = 0;
    assert(ts@.take(0) =~= Seq::<TableReference>::empty());
    while i < n
        invariant
            n == ts@.len(),
            i <= n,
            out@ =~= start + table_refs_text(ts@.take(i as int)),
        decreases n - i,
    {
        assert(ts@.take(i + 1).drop_last() =~= ts@.take(i as int));
        assert(ts@.take(i + 1).last() == ts@[i as int]);
        if i > 0 {
            out.append(", ");
        }
        assert(decreases_to!(ts => ts@[i as int]));
        ts[i].write_sql(out);
        i = i + 1;
    }
    assert(ts@.take(n as int) =~= ts@);
}

impl TableReference {
    /// Appends the SQL text of the table reference to `out`.
    pub fn write_sql(&self, out: &mut String)
        ensures
            final(out)@ == old(out)@ + table_ref_text(*self),
        decreases self,
    {
        let ghost start = out@;
        match self {
            TableReference::Subquery { lateral, subquery, alias, .. } => {
                write_flag(out, *lateral, "LATERAL ");
                out.append("(");
                subquery.write_sql(out);
                out.append(")");
                write_opt(out, " AS ", alias);
            },
            TableReference::Join { join, .. } => {
                join.left.write_sql(out);
                let natural = match join.condition {
                    JoinCondition::Natural => true,
                    _ => false,
                };
                write_flag(out, natural, " NATURAL");
                write_join_operator(out, &join.op);
                out.append(" ");
                join.right.write_sql(out);
                write_join_condition_suffix(out, &join.condition);
            },
            _ => write_plain_table_ref(out, self),
        }
        assert(out@ =~= start + table_ref_text(*self));
    }

    /// The SQL text of the table reference.
    pub fn to_string(&self) -> (s: String)
        ensures
            s@ == table_ref_text(*self),
    {
        let mut s = String::new();
        self.write_sql(&mut s);
        s
    }
}


impl TableAlias {
    /// The SQL text of the node.
    pub fn to_string(&self) -> (s: String)
        ensures
            s@ == self.sql_text(),
    {
        sql_string(self)
    }
}

impl OrderByExpr {
    /// The SQL text of the node.
    pub fn to_string(&self) -> (s: String)
        ensures
            s@ == self.sql_text(),
    {
        sql_string(self)
    }
}

impl Indirection {
    /// The SQL text of the node.
    pub fn to_string(&self) -> (s: String)
        ensures
            s@ == self.sql_text(),
    {
        sql_string(self)
    }
}

impl SelectTarget {
    /// The SQL text of the node.
    pub fn to_string(&self) -> (s: String)
        ensures
            s@ == self.sql_text(),
    {
        sql_string(self)
    }
}

impl TimeTravelPoint {
    /// The SQL text of the node.
    pub fn to_string(&self) -> (s: String)
        ensures
            s@ == self.sql_text(),
    {
        sql_string(self)
    }
}

impl Pivot {
    /// The SQL text of the node.
    pub fn to_string(&self) -> (s: String)
        ensures
            s@ == self.sql_text(),
    {
        sql_string(self)
    }
}

impl Unpivot {
    /// The SQL text of the node.
    pub fn to_string(&self) -> (s: String)
        ensures
            s@ == self.sql_text(),
    {
        sql_string(self)
    }
}

impl ChangesInterval {
    /// The SQL text of the node.
    pub fn to_string(&self) -> (s: String)
        ensures
            s@ == self.sql_text(),
    {
        sql_string(self)
    }
}

impl TemporalClause {
    /// The SQL text of the node.
    pub fn to_string(&self) -> (s: String)
        ensures
            s@ == self.sql_text(),
    {
        sql_string(self)
    }
}

} // verus!
