//! What identifiers, literals, numerals and expressions render as, and what
//! the accessors of the query tree return, stated in terms of their inputs.

use vstd::prelude::*;

use crate::common::{decimal, escape_quote, identifier_text, lowercase, quoted, sep_list, Identifier, SqlText};
use crate::expr::{
    expr_text, exprs_text, function_call_text, window_text, BinaryOperator, Expr, FileLocation,
    FunctionCall, Hint, Lambda, Literal, SelectStageOptions, Window, WindowDefinition, WindowSpec,
};
use crate::query::{
    filter_excludes, filter_lambda, lateral_subquery, lateral_table_function, set_expr_span,
    table_pivot, table_unpivot, target_function_call_name, target_has_window, target_is_star,
    ColumnFilter, SelectTarget, SetExpr, TableReference,
};

verus! {

/// The number that a string of decimal digits denotes.
pub open spec fn digits_value(s: Seq<char>) -> int
    decreases s.len(),
{
    if s.len() == 0 {
        0
    } else {
        digits_value(s.drop_last()) * 10 + (s.last() as int - 48)
    }
}

/// The decimal numeral of `n` is made of the digits `0`-`9` only, starts with
/// a digit other than `0` unless it is the single digit `0`, and denotes `n`.
pub proof fn lemma_decimal_denotes(n: nat)
    ensures
        digits_value(decimal(n)) == n,
        forall|i: int| 0 <= i < decimal(n).len() ==> '0' <= #[trigger] decimal(n)[i] <= '9',
        decimal(n).len() >= 1,
        decimal(n).len() > 1 ==> decimal(n)[0] != '0',
        n == 0 <==> decimal(n) == seq!['0'],
    decreases n,
{
    if n >= 10 {
        lemma_decimal_denotes(n / 10);
        assert(decimal(n).drop_last() =~= decimal(n / 10));
        assert(decimal(n / 10)[0] == decimal(n)[0]);
        assert(decimal(n)[0] != '0') by {
            if decimal(n / 10).len() == 1 {
                assert(decimal(n / 10) != seq!['0']);
                assert(decimal(n / 10) =~= seq![decimal(n / 10)[0]]);
            }
        }
        assert forall|i: int| 0 <= i < decimal(n).len() implies '0' <= #[trigger] decimal(
            n,
        )[i] <= '9' by {
            if i < decimal(n).len() - 1 {
                assert(decimal(n)[i] == decimal(n / 10)[i]);
            }
        }
    } else {
        assert(digits_value(decimal(n)) == digits_value(decimal(n).drop_last()) * 10 + (
        decimal(n).last() as int - 48));
        assert(decimal(n).drop_last() =~= Seq::<char>::empty());
    }
}

/// Escaping a quote works character by character: the escape of two strings
/// joined is the two escapes joined, a quote character becomes two, and any
/// other character stays as it is.
pub proof fn lemma_escape_quote(s1: Seq<char>, s2: Seq<char>, q: char, c: char)
    ensures
        escape_quote(s1 + s2, q) == escape_quote(s1, q) + escape_quote(s2, q),
        escape_quote(seq![c], q) == if c == q {
            seq![q, q]
        } else {
            seq![c]
        },
        !s1.contains(q) ==> escape_quote(s1, q) == s1,
    decreases s2.len(),
{
    assert(seq![c].drop_last() =~= Seq::<char>::empty());
    assert(seq![c].len() == 1 && seq![c].last() == c);
    assert(escape_quote(Seq::<char>::empty(), q) == Seq::<char>::empty());
    assert(escape_quote(seq![c], q) == escape_quote(seq![c].drop_last(), q) + if c == q {
        seq![q, q]
    } else {
        seq![c]
    });
    assert(escape_quote(seq![c], q) =~= if c == q {
        seq![q, q]
    } else {
        seq![c]
    });
    if s2.len() == 0 {
        assert(s1 + s2 =~= s1);
    } else {
        lemma_escape_quote(s1, s2.drop_last(), q, c);
        assert((s1 + s2).drop_last() =~= s1 + s2.drop_last());
        assert((s1 + s2).last() == s2.last());
    }
    lemma_escape_no_quote(s1, q);
}

/// A string without the quote character is its own escape.
proof fn lemma_escape_no_quote(s: Seq<char>, q: char)
    ensures
        !s.contains(q) ==> escape_quote(s, q) == s,
    decreases s.len(),
{
    if s.len() > 0 && !s.contains(q) {
        assert(!s.drop_last().contains(q)) by {
            if s.drop_last().contains(q) {
                let i = choose|i: int| 0 <= i < s.drop_last().len() && s.drop_last()[i] == q;
                assert(s[i] == q);
            }
        }
        lemma_escape_no_quote(s.drop_last(), q);
        assert(s.last() != q) by {
            assert(s[s.len() - 1] == s.last());
        }
        assert(s.drop_last().push(s.last()) =~= s);
    }
}

/// An unquoted identifier renders as its name; a quoted one as its name with
/// the quote character on each side and each quote character inside doubled.
pub proof fn lemma_identifier_text(id: Identifier)
    ensures
        id.quote is None ==> identifier_text(id) == id.name@,
        id.quote matches Some(q) ==> identifier_text(id) == seq![q] + escape_quote(id.name@, q)
            + seq![q],
{
}

/// Literals render as their numeral, as a string in single quotes with single
/// quotes inside doubled, as `TRUE` or `FALSE`, or as `NULL`.
pub proof fn lemma_literal_text(l: Literal)
    ensures
        l matches Literal::UInt64(n) ==> l.sql_text() == decimal(n as nat),
        l matches Literal::String(s) ==> l.sql_text() == seq!['\''] + escape_quote(s@, '\'')
            + seq!['\''],
        l matches Literal::Boolean(b) ==> l.sql_text() == if b {
            "TRUE"@
        } else {
            "FALSE"@
        },
        l is Null ==> l.sql_text() == "NULL"@,
{
}

/// The symbol or keyword an infix operator renders as.
pub open spec fn operator_symbol(op: BinaryOperator) -> Seq<char> {
    match op {
        BinaryOperator::Plus => "+"@,
        BinaryOperator::Minus => "-"@,
        BinaryOperator::Multiply => "*"@,
        BinaryOperator::Eq => "="@,
        BinaryOperator::NotEq => "<>"@,
        BinaryOperator::Gt => ">"@,
        BinaryOperator::Lt => "<"@,
        BinaryOperator::And => "AND"@,
        BinaryOperator::Or => "OR"@,
    }
}

/// A column renders as its name, a literal as itself, a call as the call, and
/// an infix operation as its left side, a space, the operator, a space and
/// its right side.
pub proof fn lemma_expr_text(e: Expr)
    ensures
        e matches Expr::ColumnRef { column, .. } ==> expr_text(e) == identifier_text(column),
        e matches Expr::Literal { value, .. } ==> expr_text(e) == value.sql_text(),
        e matches Expr::FunctionCall { func, .. } ==> expr_text(e) == function_call_text(func),
        e matches Expr::BinaryOp { op, left, right, .. } ==> expr_text(e) == expr_text(*left)
            + " "@ + operator_symbol(op) + " "@ + expr_text(*right),
{
}

/// A call renders as its name and, in parentheses, `DISTINCT ` when distinct
/// and its arguments separated by `", "`; then ` OVER ` and the window when it
/// has one. A named window renders as its name; an inline one as `()` without
/// partitioning, else as `(PARTITION BY ` the expressions `)`.
pub proof fn lemma_function_call_text(f: FunctionCall, w: Window)
    ensures
        function_call_text(f) == identifier_text(f.name) + "("@ + (if f.distinct {
            "DISTINCT "@
        } else {
            Seq::empty()
        }) + exprs_text(f.args@) + ")"@ + match f.window {
            Some(w) => " OVER "@ + window_text(w),
            None => Seq::empty(),
        },
        w matches Window::WindowReference(n) ==> window_text(w) == identifier_text(n),
        w matches Window::WindowSpec(s) ==> window_text(w) == if s.partition_by@.len() == 0 {
            "()"@
        } else {
            "(PARTITION BY "@ + exprs_text(s.partition_by@) + ")"@
        },
{
}

/// Lists of expressions, and lists of other nodes, render with their separator
/// between each two neighbours and nowhere else.
pub proof fn lemma_lists<T: SqlText>(es: Seq<Expr>, items: Seq<T>, sep: Seq<char>)
    ensures
        es.len() == 0 ==> exprs_text(es) == Seq::<char>::empty(),
        es.len() == 1 ==> exprs_text(es) == expr_text(es[0]),
        es.len() > 1 ==> exprs_text(es) == exprs_text(es.drop_last()) + ", "@ + expr_text(
            es.last(),
        ),
        items.len() == 0 ==> sep_list(items, sep) == Seq::<char>::empty(),
        items.len() == 1 ==> sep_list(items, sep) == items[0].sql_text(),
        items.len() > 1 ==> sep_list(items, sep) == sep_list(items.drop_last(), sep) + sep
            + items.last().sql_text(),
{
}

/// A lambda with one parameter renders it bare, with any other number in
/// parentheses separated by `", "`; then ` -> ` and its body.
pub proof fn lemma_lambda_text(l: Lambda)
    ensures
        l.params@.len() == 1 ==> l.sql_text() == identifier_text(l.params@[0]) + " -> "@
            + expr_text(*l.expr),
        l.params@.len() != 1 ==> l.sql_text() == "("@ + sep_list(l.params@, ", "@) + ")"@
            + " -> "@ + expr_text(*l.expr),
{
}

/// Hints render between `/*+ ` and `*/`, each as `name(expr)` followed by a space.
pub proof fn lemma_hint_text(h: Hint)
    ensures
        h.hints_list@.len() == 0 ==> h.sql_text() == "/*+ "@ + "*/"@,
        h.hints_list@.len() > 0 ==> h.sql_text() == "/*+ "@ + crate::expr::hint_items_text(
            h.hints_list@.drop_last(),
        ) + identifier_text(h.hints_list@.last().name) + "("@ + expr_text(
            h.hints_list@.last().expr,
        ) + ")"@ + " "@ + "*/"@,
{
    if h.hints_list@.len() == 0 {
        assert(h.sql_text() =~= "/*+ "@ + "*/"@);
    } else {
        assert(h.sql_text() =~= "/*+ "@ + crate::expr::hint_items_text(h.hints_list@.drop_last())
            + identifier_text(h.hints_list@.last().name) + "("@ + expr_text(
            h.hints_list@.last().expr,
        ) + ")"@ + " "@ + "*/"@);
    }
}

/// A stage renders as `@` and its name; a URI in single quotes.
pub proof fn lemma_file_location_text(l: FileLocation)
    ensures
        l matches FileLocation::Stage(s) ==> l.sql_text() == "@"@ + s@,
        l matches FileLocation::Uri(u) ==> l.sql_text() == quoted(u@, '\''),
{
}

/// The span of a set expression is the span of the node it holds.
pub proof fn lemma_span_kinds(e: SetExpr)
    ensures
        e matches SetExpr::Select(s) ==> set_expr_span(e) == s.span,
        e matches SetExpr::Query(q) ==> set_expr_span(e) == q.span,
        e matches SetExpr::SetOperation(op) ==> set_expr_span(e) == op.span,
        e matches SetExpr::Values { span, .. } ==> set_expr_span(e) == span,
{
}

/// A star-columns item is a star exactly when its qualified name is not empty
/// and ends in `*`, whatever its column filter; an aliased expression is never
/// a star. Only a call with a window is a window call.
pub proof fn lemma_star_and_window(t: SelectTarget)
    ensures
        t matches SelectTarget::StarColumns { qualified, .. } ==> (target_is_star(t) <==> (
        qualified@.len() > 0 && qualified@[qualified@.len() - 1] is Star)),
        t is AliasedExpr ==> !target_is_star(t),
        t is StarColumns ==> !target_has_window(t) && target_function_call_name(t) is None,
        t matches SelectTarget::AliasedExpr { expr, .. } ==> (target_has_window(t) <==> (
        *expr matches Expr::FunctionCall { func, .. } && func.window is Some)),
        t matches SelectTarget::AliasedExpr { expr, .. } ==> (!(*expr is FunctionCall)
            ==> target_function_call_name(t) is None),
{
}

/// A filter that excludes columns gives those columns and no lambda; one with a
/// lambda gives that lambda and no columns.
pub proof fn lemma_filter_parts(f: ColumnFilter)
    ensures
        f matches ColumnFilter::Excludes(ex) ==> filter_excludes(f) == Some(ex@) && filter_lambda(
            f,
        ) is None,
        f matches ColumnFilter::Lambda(l) ==> filter_lambda(f) == Some(l) && filter_excludes(
            f,
        ) is None,
{
}

/// A named table gives the pivot and unpivot it holds; other references give
/// none. A table function is lateral exactly when its flag says so, and so is
/// a subquery; no other reference is lateral.
pub proof fn lemma_table_reference_parts(t: TableReference)
    ensures
        t matches TableReference::Table { pivot, unpivot, .. } ==> (table_pivot(t) == match pivot {
            Some(p) => Some(*p),
            None => None,
        } && table_unpivot(t) == match unpivot {
            Some(u) => Some(*u),
            None => None,
        }),
        !(t is Table) ==> table_pivot(t) is None && table_unpivot(t) is None,
        t matches TableReference::TableFunction { lateral, .. } ==> lateral_table_function(t)
            == lateral,
        t matches TableReference::Subquery { lateral, .. } ==> lateral_subquery(t) == lateral,
        !(t is TableFunction) ==> !lateral_table_function(t),
        !(t is Subquery) ==> !lateral_subquery(t),
{
}

/// A named window renders as its name, ` AS ` and its inline window; a named
/// argument as its name, `=>` and its value; a file name as a quoted string.
pub proof fn lemma_small_nodes(w: WindowDefinition, arg: (Identifier, Expr), f: String)
    ensures
        w.sql_text() == identifier_text(w.name) + " AS "@ + crate::expr::window_spec_text(w.spec),
        arg.sql_text() == identifier_text(arg.0) + "=>"@ + expr_text(arg.1),
        f.sql_text() == seq!['\''] + escape_quote(f@, '\'') + seq!['\''],
{
}

/// The text of the stage options that are set: `FILES => (` the quoted file
/// names separated by `,` `)`, `FILE_FORMAT => ` and the quoted format, and
/// `PATTERN => ` and the quoted pattern, in that order, separated by `,`.
pub open spec fn stage_options_listed(o: SelectStageOptions) -> Seq<char> {
    let files = match o.files {
        Some(fs) => "FILES => ("@ + sep_list(fs@, ","@) + ")"@,
        None => Seq::empty(),
    };
    let format = match o.file_format {
        Some(f) => "FILE_FORMAT => "@ + quoted(f@, '\''),
        None => Seq::empty(),
    };
    let pattern = match o.pattern {
        Some(p) => "PATTERN => "@ + quoted(p@, '\''),
        None => Seq::empty(),
    };
    files + (if o.files is Some && (o.file_format is Some || o.pattern is Some) {
        ","@
    } else {
        Seq::empty()
    }) + format + (if o.file_format is Some && o.pattern is Some {
        ","@
    } else {
        Seq::empty()
    }) + pattern
}

/// Stage options render as ` (`, the options that are set, and `)`.
pub proof fn lemma_stage_options_text(o: SelectStageOptions)
    ensures
        o.sql_text() == " ("@ + stage_options_listed(o) + ")"@,
{
    let parts = crate::expr::stage_option_parts(o);
    let sep = ","@;
    let j = crate::expr::join_parts(parts, sep);
    let files = match o.files {
        Some(fs) => "FILES => ("@ + sep_list(fs@, ","@) + ")"@,
        None => Seq::empty(),
    };
    let format = match o.file_format {
        Some(f) => "FILE_FORMAT => "@ + quoted(f@, '\''),
        None => Seq::empty(),
    };
    let pattern = match o.pattern {
        Some(p) => "PATTERN => "@ + quoted(p@, '\''),
        None => Seq::empty(),
    };
    let fs: Seq<Seq<char>> = if o.files is Some { seq![files] } else { Seq::empty() };
    let ff: Seq<Seq<char>> = if o.file_format is Some { seq![format] } else { Seq::empty() };
    let pp: Seq<Seq<char>> = if o.pattern is Some { seq![pattern] } else { Seq::empty() };
    assert(parts =~= fs + ff + pp);
    if parts.len() == 3 {
        assert(parts =~= seq![files, format, pattern]);
        assert(parts.drop_last() =~= seq![files, format]);
        assert(parts.drop_last().drop_last() =~= seq![files]);
        let p2 = parts.drop_last();
        assert(crate::expr::join_parts(p2.drop_last(), sep) == files);
        assert(crate::expr::join_parts(p2, sep) == crate::expr::join_parts(p2.drop_last(), sep)
            + sep + p2.last());
        assert(j == crate::expr::join_parts(p2, sep) + sep + parts.last());
        assert(j =~= files + sep + format + sep + pattern);
    } else if parts.len() == 2 {
        assert(parts.drop_last() =~= seq![parts[0]]);
        assert(crate::expr::join_parts(parts.drop_last(), sep) == parts[0]);
        assert(j == crate::expr::join_parts(parts.drop_last(), sep) + sep + parts.last());
        assert(j =~= parts[0] + sep + parts[1]);
    } else if parts.len() == 1 {
        assert(j == parts[0]);
    }
    assert(j =~= stage_options_listed(o));
}

} // verus!
