//! The query part of the syntax tree: queries, set expressions, `SELECT`
//! statements, select targets and table references, with their accessors.

use vstd::prelude::*;

use crate::common::{lowercase, to_lowercase, Identifier, Span};
use crate::expr::{Expr, FileLocation, Hint, Lambda, SelectStageOptions, WindowDefinition};

verus! {

/// Root node of a query tree.
#[derive(Debug, PartialEq)]
pub struct Query {
    pub span: Span,
    /// `WITH` clause, common table expressions.
    pub with: Option<With>,
    /// Set operator: `SELECT` or `UNION` / `EXCEPT` / `INTERSECT`.
    pub body: SetExpr,
    // The following clauses can only appear at the top level of a query or subquery.
    /// `ORDER BY` clause.
    pub order_by: Vec<OrderByExpr>,
    /// `LIMIT` clause.
    pub limit: Vec<Expr>,
    /// `OFFSET` expression.
    pub offset: Option<Expr>,
    /// Whether the result is dropped rather than returned.
    pub ignore_result: bool,
}

/// A `WITH [RECURSIVE] cte, ...` clause.
#[derive(Debug, PartialEq)]
pub struct With {
    pub span: Span,
    pub recursive: bool,
    pub ctes: Vec<CTE>,
}

/// A common table expression `alias AS [MATERIALIZED] (query)`.
#[derive(Debug, PartialEq)]
pub struct CTE {
    pub span: Span,
    pub alias: TableAlias,
    pub materialized: bool,
    pub query: Box<Query>,
}

/// `left UNION|EXCEPT|INTERSECT [ALL] right`.
#[derive(Debug, PartialEq)]
pub struct SetOperation {
    pub span: Span,
    pub op: SetOperator,
    pub all: bool,
    pub left: Box<SetExpr>,
    pub right: Box<SetExpr>,
}

/// A subquery represented with a `SELECT` statement.
#[derive(Debug, PartialEq)]
pub struct SelectStmt {
    pub span: Span,
    pub hints: Option<Hint>,
    pub distinct: bool,
    pub top_n: Option<u64>,
    /// Result set of the statement.
    pub select_list: Vec<SelectTarget>,
    /// `FROM` clause, a list of table references. The references split by `,`
    /// are joined with cross joins.
    pub from: Vec<TableReference>,
    /// `WHERE` clause.
    pub selection: Option<Expr>,
    /// `GROUP BY` clause.
    pub group_by: Option<GroupBy>,
    /// `HAVING` clause.
    pub having: Option<Expr>,
    /// `WINDOW` clause.
    pub window_list: Option<Vec<WindowDefinition>>,
    /// `QUALIFY` clause.
    pub qualify: Option<Expr>,
}

/// A `GROUP BY` clause.
#[derive(Debug, PartialEq)]
pub enum GroupBy {
    /// `GROUP BY expr [, expr]*`
    Normal(Vec<Expr>),
    /// `GROUP BY ALL`
    All,
    /// `GROUP BY GROUPING SETS ( GroupSet [, GroupSet]* )`,
    /// where `GroupSet := (expr [, expr]*) | expr`
    GroupingSets(Vec<Vec<Expr>>),
    /// `GROUP BY CUBE ( expr [, expr]* )`
    Cube(Vec<Expr>),
    /// `GROUP BY ROLLUP ( expr [, expr]* )`
    Rollup(Vec<Expr>),
}

/// A relational set expression, like
/// `SELECT ... FROM ... {UNION|EXCEPT|INTERSECT} SELECT ... FROM ...`.
#[derive(Debug, PartialEq)]
pub enum SetExpr {
    Select(Box<SelectStmt>),
    Query(Box<Query>),
    /// `UNION` / `EXCEPT` / `INTERSECT`
    SetOperation(Box<SetOperation>),
    /// A `VALUES` clause.
    Values { span: Span, values: Vec<Vec<Expr>> },
}

#[derive(Debug, Clone, PartialEq, Eq)]
pub enum SetOperator {
    Union,
    Except,
    Intersect,
}

/// An item of an `ORDER BY` clause.
#[derive(Debug, PartialEq)]
pub struct OrderByExpr {
    pub expr: Expr,
    /// `ASC` or `DESC`
    pub asc: Option<bool>,
    /// `NULLS FIRST` or `NULLS LAST`
    pub nulls_first: Option<bool>,
}

/// One item of the comma-separated list following `SELECT`.
#[derive(Debug, PartialEq)]
pub enum SelectTarget {
    /// Expression with alias, e.g. `SELECT t.a, b AS a, a+1 AS b FROM t`.
    AliasedExpr { expr: Box<Expr>, alias: Option<Identifier> },
    /// Qualified star name, e.g. `SELECT t.* EXCLUDE a, COLUMNS(expr) FROM t`;
    /// `COLUMNS(lambda expression)`. The star wildcard is included.
    StarColumns { qualified: QualifiedName, column_filter: Option<ColumnFilter> },
}

/// What a star target keeps: all but some columns, or those a lambda selects.
#[derive(Debug, PartialEq)]
pub enum ColumnFilter {
    Excludes(Vec<Identifier>),
    Lambda(Lambda),
}

pub type QualifiedName = Vec<Indirection>;

/// Indirection of a select result, like a part of `db.table.column`.
/// Can be a database name, table name, field name or wildcard star (`*`).
#[derive(Debug, Clone, PartialEq, Eq)]
pub enum Indirection {
    /// Field name
    Identifier(Identifier),
    /// Wildcard star
    Star(Span),
}

/// Time travel specification.
#[derive(Debug, PartialEq)]
pub enum TimeTravelPoint {
    Snapshot(String),
    Timestamp(Box<Expr>),
    Offset(Box<Expr>),
    Stream { catalog: Option<Identifier>, database: Option<Identifier>, name: Identifier },
}

/// `PIVOT(aggregate FOR value_column IN (values))`.
#[derive(Debug, PartialEq)]
pub struct Pivot {
    pub aggregate: Expr,
    pub value_column: Identifier,
    pub values: Vec<Expr>,
}

/// `UNPIVOT(value_column FOR column_name IN (names))`.
#[derive(Debug, Clone, PartialEq)]
pub struct Unpivot {
    pub value_column: Identifier,
    pub column_name: Identifier,
    pub names: Vec<Identifier>,
}

/// `CHANGES (INFORMATION => ...) AT point [END point]`.
#[derive(Debug, PartialEq)]
pub struct ChangesInterval {
    pub append_only: bool,
    pub at_point: TimeTravelPoint,
    pub end_point: Option<TimeTravelPoint>,
}

/// The time a table is read at, or the changes of it that are read.
#[derive(Debug, PartialEq)]
pub enum TemporalClause {
    TimeTravel(TimeTravelPoint),
    Changes(ChangesInterval),
}

/// A table name or a parenthesized subquery with an optional alias.
#[derive(Debug, PartialEq)]
pub enum TableReference {
    /// Table name
    Table {
        span: Span,
        catalog: Option<Identifier>,
        database: Option<Identifier>,
        table: Identifier,
        alias: Option<TableAlias>,
        temporal: Option<TemporalClause>,
        /// whether to consume the table
        consume: bool,
        pivot: Option<Box<Pivot>>,
        unpivot: Option<Box<Unpivot>>,
    },
    /// `TABLE(expr)[ AS alias ]`
    TableFunction {
        span: Span,
        /// Whether the table function is a lateral table function
        lateral: bool,
        name: Identifier,
        params: Vec<Expr>,
        named_params: Vec<(Identifier, Expr)>,
        alias: Option<TableAlias>,
    },
    /// Derived table, which can be a subquery or joined tables or a combination of them
    Subquery {
        span: Span,
        /// Whether the subquery is a lateral subquery
        lateral: bool,
        subquery: Box<Query>,
        alias: Option<TableAlias>,
    },
    Join { span: Span, join: Join },
    Location {
        span: Span,
        location: FileLocation,
        options: SelectStageOptions,
        alias: Option<TableAlias>,
    },
}

/// `name [(column, ...)]`
#[derive(Debug, Clone, PartialEq, Eq)]
pub struct TableAlias {
    pub name: Identifier,
    pub columns: Vec<Identifier>,
}

#[derive(Debug, PartialEq)]
pub struct Join {
    pub op: JoinOperator,
    pub condition: JoinCondition,
    pub left: Box<TableReference>,
    pub right: Box<TableReference>,
}

#[derive(Debug, Clone, PartialEq, Eq)]
pub enum JoinOperator {
    Inner,
    // Outer joins can not work with `JoinCondition::NoCondition`
    LeftOuter,
    RightOuter,
    FullOuter,
    LeftSemi,
    LeftAnti,
    RightSemi,
    RightAnti,
    // CrossJoin can only work with `JoinCondition::NoCondition`
    CrossJoin,
}

#[derive(Debug, PartialEq)]
pub enum JoinCondition {
    On(Box<Expr>),
    Using(Vec<Identifier>),
    Natural,
    /// No join condition.
    NoCondition,
}


/// Whether a select target is a star: a star-columns target whose qualified
/// name ends in `*`.
pub open spec fn target_is_star(t: SelectTarget) -> bool {
    match t {
        SelectTarget::AliasedExpr { .. } => false,
        SelectTarget::StarColumns { qualified, .. } => qualified@.len() > 0
            && qualified@.last() is Star,
    }
}

/// Whether a select target is a call of a window function.
pub open spec fn target_has_window(t: SelectTarget) -> bool {
    match t {
        SelectTarget::AliasedExpr { expr, .. } => match *expr {
            Expr::FunctionCall { func, .. } => func.window is Some,
            _ => false,
        },
        SelectTarget::StarColumns { .. } => false,
    }
}

/// The lower-cased name of the function that a select target calls, if it is
/// a call of a function that is not a window function.
pub open spec fn target_function_call_name(t: SelectTarget) -> Option<Seq<char>> {
    match t {
        SelectTarget::AliasedExpr { expr, .. } => match *expr {
            Expr::FunctionCall { func, .. } => if func.window is None {
                Some(lowercase(func.name.name@))
            } else {
                None
            },
            _ => None,
        },
        SelectTarget::StarColumns { .. } => None,
    }
}

/// The view of an optional string.
pub open spec fn opt_string_view(s: Option<String>) -> Option<Seq<char>> {
    match s {
        Some(s) => Some(s@),
        None => None,
    }
}

/// A star-columns target with its column filter set to exclude `exclude`;
/// any other target unchanged.
pub open spec fn with_excludes(t: SelectTarget, exclude: Vec<Identifier>) -> SelectTarget {
    match t {
        SelectTarget::StarColumns { qualified, .. } => SelectTarget::StarColumns {
            qualified,
            column_filter: Some(ColumnFilter::Excludes(exclude)),
        },
        SelectTarget::AliasedExpr { .. } => t,
    }
}

/// The excluded columns of a column filter, if it excludes columns.
pub open spec fn filter_excludes(f: ColumnFilter) -> Option<Seq<Identifier>> {
    match f {
        ColumnFilter::Excludes(ex) => Some(ex@),
        ColumnFilter::Lambda(_) => None,
    }
}

/// The lambda of a column filter, if it selects columns by a lambda.
pub open spec fn filter_lambda(f: ColumnFilter) -> Option<Lambda> {
    match f {
        ColumnFilter::Lambda(l) => Some(l),
        ColumnFilter::Excludes(_) => None,
    }
}

/// The pivot of a table reference, if it is a named table with one.
pub open spec fn table_pivot(t: TableReference) -> Option<Pivot> {
    match t {
        TableReference::Table { pivot: Some(p), .. } => Some(*p),
        _ => None,
    }
}

/// The unpivot of a table reference, if it is a named table with one.
pub open spec fn table_unpivot(t: TableReference) -> Option<Unpivot> {
    match t {
        TableReference::Table { unpivot: Some(u), .. } => Some(*u),
        _ => None,
    }
}

/// Whether a table reference is a lateral table function.
pub open spec fn lateral_table_function(t: TableReference) -> bool {
    t matches TableReference::TableFunction { lateral, .. } && lateral
}

/// Whether a table reference is a lateral subquery.
pub open spec fn lateral_subquery(t: TableReference) -> bool {
    t matches TableReference::Subquery { lateral, .. } && lateral
}

impl SelectTarget {
    pub fn is_star(&self) -> (b: bool)
        ensures
            b == target_is_star(*self),
    {
        match self {
            SelectTarget::AliasedExpr { .. } => false,
            SelectTarget::StarColumns { qualified, .. } => {
                let n = qualified.len();
                if n == 0 {
                    false
                } else {
                    match &qualified[n - 1] {
                        Indirection::Star(_) => true,
                        Indirection::Identifier(_) => false,
                    }
                }
            },
        }
    }

    /// Sets the column filter of a star-columns target to exclude the columns `exclude`.
    pub fn exclude(&mut self, exclude: Vec<Identifier>)
        requires
            *old(self) is StarColumns,
        ensures
            *final(self) == with_excludes(*old(self), exclude),
    {
        match self {
            SelectTarget::AliasedExpr { .. } => {},
            SelectTarget::StarColumns { column_filter, .. } => {
                *column_filter = Some(ColumnFilter::Excludes(exclude));
            },
        }
    }

    pub fn has_window(&self) -> (b: bool)
        ensures
            b == target_has_window(*self),
    {
        match self {
            SelectTarget::AliasedExpr { expr, .. } => match &**expr {
                Expr::FunctionCall { func, .. } => func.window.is_some(),
                _ => false,
            },
            SelectTarget::StarColumns { .. } => false,
        }
    }

    pub fn function_call_name(&self) -> (name: Option<String>)
        ensures
            opt_string_view(name) == target_function_call_name(*self),
    {
        match self {
            SelectTarget::AliasedExpr { expr, .. } => match &**expr {
                Expr::FunctionCall { func, .. } => {
                    if func.window.is_none() {
                        Some(to_lowercase(func.name.name.as_str()))
                    } else {
                        None
                    }
                },
                _ => None,
            },
            SelectTarget::StarColumns { .. } => None,
        }
    }
}

impl ColumnFilter {
    pub fn get_excludes(&self) -> (r: Option<&[Identifier]>)
        ensures
            match r {
                Some(ex) => filter_excludes(*self) == Some(ex@),
                None => filter_excludes(*self) is None,
            },
    {
        if let ColumnFilter::Excludes(ex) = self {
            Some(ex.as_slice())
        } else {
            None
        }
    }

    pub fn get_lambda(&self) -> (r: Option<&Lambda>)
        ensures
            match r {
                Some(l) => filter_lambda(*self) == Some(*l),
                None => filter_lambda(*self) is None,
            },
    {
        if let ColumnFilter::Lambda(l) = self {
            Some(l)
        } else {
            None
        }
    }
}

impl TableReference {
    pub fn pivot(&self) -> (r: Option<&Pivot>)
        ensures
            match r {
                Some(p) => table_pivot(*self) == Some(*p),
                None => table_pivot(*self) is None,
            },
    {
        match self {
            TableReference::Table { pivot, .. } => match pivot {
                Some(b) => Some(&**b),
                None => None,
            },
            _ => None,
        }
    }

    pub fn unpivot(&self) -> (r: Option<&Unpivot>)
        ensures
            match r {
                Some(u) => table_unpivot(*self) == Some(*u),
                None => table_unpivot(*self) is None,
            },
    {
        match self {
            TableReference::Table { unpivot, .. } => match unpivot {
                Some(b) => Some(&**b),
                None => None,
            },
            _ => None,
        }
    }

    pub fn is_lateral_table_function(&self) -> (b: bool)
        ensures
            b == lateral_table_function(*self),
    {
        match self {
            TableReference::TableFunction { lateral, .. } => *lateral,
            _ => false,
        }
    }

    pub fn is_lateral_subquery(&self) -> (b: bool)
        ensures
            b == lateral_subquery(*self),
    {
        match self {
            TableReference::Subquery { lateral, .. } => *lateral,
            _ => false,
        }
    }
}

/// The span of a set expression: that of the node it wraps.
pub open spec fn set_expr_span(e: SetExpr) -> Span {
    match e {
        SetExpr::Select(stmt) => stmt.span,
        SetExpr::Query(query) => query.span,
        SetExpr::SetOperation(op) => op.span,
        SetExpr::Values { span, .. } => span,
    }
}

/// Whether `q` is what `into_query` makes of `e`: the query that `e` wraps, or
/// else a query with `e` as its body, `e`'s span and no other clause.
pub open spec fn is_query_of(e: SetExpr, q: Query) -> bool {
    match e {
        SetExpr::Query(inner) => q == *inner,
        _ => {
            &&& q.span == set_expr_span(e)
            &&& q.with is None
            &&& q.body == e
            &&& q.order_by@.len() == 0
            &&& q.limit@.len() == 0
            &&& q.offset is None
            &&& !q.ignore_result
        },
    }
}

impl SetExpr {
    pub fn span(&self) -> (span: Span)
        ensures
            span == set_expr_span(*self),
    {
        match self {
            SetExpr::Select(stmt) => stmt.span,
            SetExpr::Query(query) => query.span,
            SetExpr::SetOperation(op) => op.span,
            SetExpr::Values { span, .. } => *span,
        }
    }

    pub fn into_query(self) -> (query: Query)
        ensures
            is_query_of(self, query),
    {
        match self {
            SetExpr::Query(query) => *query,
            _ => Query {
                span: self.span(),
                with: None,
                body: self,
                order_by: vec![],
                limit: vec![],
                offset: None,
                ignore_result: false,
            },
        }
    }
}

} // verus!
