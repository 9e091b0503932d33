//! Scalar expressions and the other node kinds that queries embed: literals,
//! function calls, windows, lambdas, hints and stage locations.

use vstd::prelude::*;

use crate::common::{
    decimal, identifier_text, push_char, quoted, sep_list, write_decimal, write_quoted,
    write_separated_list, Identifier, Span, SqlText,
};

verus! {

/// A constant value.
#[derive(Debug, Clone, PartialEq, Eq)]
pub enum Literal {
    UInt64(u64),
    String(String),
    Boolean(bool),
    Null,
}

/// The SQL text of a literal.
pub open spec fn literal_text(l: Literal) -> Seq<char> {
    match l {
        Literal::UInt64(n) => decimal(n as nat),
        Literal::String(s) => quoted(s@, '\''),
        Literal::Boolean(b) => if b {
            "TRUE"@
        } else {
            "FALSE"@
        },
        Literal::Null => "NULL"@,
    }
}

impl SqlText for Literal {
    open spec fn sql_text(&self) -> Seq<char> {
        literal_text(*self)
    }

    fn write_sql(&self, out: &mut String) {
        match self {
            Literal::UInt64(n) => write_decimal(out, *n),
            Literal::String(s) => write_quoted(out, s.as_str(), '\''),
            Literal::Boolean(b) => {
                if *b {
                    out.append("TRUE");
                } else {
                    out.append("FALSE");
                }
            },
            Literal::Null => out.append("NULL"),
        }
    }
}

/// An infix operator.
#[derive(Debug, Clone, Copy, PartialEq, Eq)]
pub enum BinaryOperator {
    Plus,
    Minus,
    Multiply,
    Eq,
    NotEq,
    Gt,
    Lt,
    And,
    Or,
}

/// The SQL text of an infix operator.
pub open spec fn binary_operator_text(op: BinaryOperator) -> Seq<char> {
    match op {
        BinaryOperator::Plus => "+"@,
        BinaryOperator::Minus => "-"@,
        BinaryOperator::Multiply => "*"@,
        BinaryOperator::Eq => "="@,
        BinaryOperator::NotEq => "<>"@,
        BinaryOperator::Gt => ">"@,
        BinaryOperator::Lt => "<"@,
        BinaryOperator::And => "AND"@,
        BinaryOperator::Or => "OR"@,
    }
}

impl SqlText for BinaryOperator {
    open spec fn sql_text(&self) -> Seq<char> {
        binary_operator_text(*self)
    }

    fn write_sql(&self, out: &mut String) {
        match self {
            BinaryOperator::Plus => out.append("+"),
            BinaryOperator::Minus => out.append("-"),
            BinaryOperator::Multiply => out.append("*"),
            BinaryOperator::Eq => out.append("="),
            BinaryOperator::NotEq => out.append("<>"),
            BinaryOperator::Gt => out.append(">"),
            BinaryOperator::Lt => out.append("<"),
            BinaryOperator::And => out.append("AND"),
            BinaryOperator::Or => out.append("OR"),
        }
    }
}

/// The partitioning of an inline window.
#[derive(Debug, PartialEq)]
pub struct WindowSpec {
    pub partition_by: Vec<Expr>,
}

/// The window of a window-function call: a named window, or an inline one.
#[derive(Debug, PartialEq)]
pub enum Window {
    WindowReference(Identifier),
    WindowSpec(WindowSpec),
}

/// A function call `name([DISTINCT] args) [OVER window]`.
#[derive(Debug, PartialEq)]
pub struct FunctionCall {
    pub distinct: bool,
    pub name: Identifier,
    pub args: Vec<Expr>,
    pub window: Option<Window>,
}

/// A scalar expression.
#[derive(Debug, PartialEq)]
pub enum Expr {
    ColumnRef { span: Span, column: Identifier },
    Literal { span: Span, value: Literal },
    FunctionCall { span: Span, func: FunctionCall },
    BinaryOp { span: Span, op: BinaryOperator, left: Box<Expr>, right: Box<Expr> },
}

/// The SQL text of an expression.
pub open spec fn expr_text(e: Expr) -> Seq<char>
    decreases e,
{
    match e {
        Expr::ColumnRef { column, .. } => identifier_text(column),
        Expr::Literal { value, .. } => literal_text(value),
        Expr::FunctionCall { func, .. } => function_call_text(func),
        Expr::BinaryOp { op, left, right, .. } => expr_text(*left) + " "@ + binary_operator_text(
            op,
        ) + " "@ + expr_text(*right),
    }
}

/// The SQL texts of `es`, separated by `", "`.
pub open spec fn exprs_text(es: Seq<Expr>) -> Seq<char>
    decreases es,
{
    if es.len() == 0 {
        Seq::empty()
    } else if es.len() == 1 {
        expr_text(es[0])
    } else {
        exprs_text(es.drop_last()) + ", "@ + expr_text(es.last())
    }
}

/// The SQL text of an inline window: `(PARTITION BY ...)`, or `()` with no partitioning.
pub open spec fn window_spec_text(w: WindowSpec) -> Seq<char>
    decreases w,
{
    if w.partition_by@.len() == 0 {
        "()"@
    } else {
        "(PARTITION BY "@ + exprs_text(w.partition_by@) + ")"@
    }
}

/// The SQL text of a window.
pub open spec fn window_text(w: Window) -> Seq<char>
    decreases w,
{
    match w {
        Window::WindowReference(name) => identifier_text(name),
        Window::WindowSpec(spec) => window_spec_text(spec),
    }
}

/// The SQL text of a function call.
pub open spec fn function_call_text(f: FunctionCall) -> Seq<char>
    decreases f,
{
    identifier_text(f.name) + "("@ + (if f.distinct {
        "DISTINCT "@
    } else {
        Seq::empty()
    }) + exprs_text(f.args@) + ")"@ + match f.window {
        Some(w) => " OVER "@ + window_text(w),
        None => Seq::empty(),
    }
}


/// Appends the SQL texts of `es` to `out`, separated by `", "`.
pub fn write_exprs(out: &mut String, es: &Vec<Expr>)
    ensures
        final(out)@ == old(out)@ + exprs_text(es@),
    decreases es,
{
    let ghost start = out@;
    let n = es.len();
    let mut i: usize = 0;
    assert(es@.take(0) =~= Seq::<Expr>::empty());
    while i < n
        invariant
            n == es@.len(),
            i <= n,
            out@ =~= start + exprs_text(es@.take(i as int)),
        decreases n - i,
    {
        assert(es@.take(i + 1).drop_last() =~= es@.take(i as int));
        assert(es@.take(i + 1).last() == es@[i as int]);
        if i > 0 {
            out.append(", ");
        }
        assert(decreases_to!(es => es@[i as int]));
        write_expr(out, &es[i]);
        i = i + 1;
    }
    assert(es@.take(n as int) =~= es@);
}

/// Appends the SQL text of an inline window to `out`.
pub fn write_window_spec(out: &mut String, w: &WindowSpec)
    ensures
        final(out)@ == old(out)@ + window_spec_text(*w),
    decreases w,
{
    if w.partition_by.len() == 0 {
        out.append("()");
    } else {
        out.append("(PARTITION BY ");
        write_exprs(out, &w.partition_by);
        out.append(")");
    }
}

/// Appends the SQL text of a window to `out`.
pub fn write_window(out: &mut String, w: &Window)
    ensures
        final(out)@ == old(out)@ + window_text(*w),
    decreases w,
{
    match w {
        Window::WindowReference(name) => name.write_sql(out),
        Window::WindowSpec(spec) => write_window_spec(out, spec),
    }
}

/// Appends the SQL text of a function call to `out`.
pub fn write_function_call(out: &mut String, f: &FunctionCall)
    ensures
        final(out)@ == old(out)@ + function_call_text(*f),
    decreases f,
{
    let ghost start = out@;
    f.name.write_sql(out);
    out.append("(");
    if f.distinct {
        out.append("DISTINCT ");
    }
    write_exprs(out, &f.args);
    out.append(")");
    match &f.window {
        Some(w) => {
            out.append(" OVER ");
            write_window(out, w);
        },
        None => {},
    }
    assert(out@ =~= start + function_call_text(*f));
}

/// Appends the SQL text of an expression to `out`.
pub fn write_expr(out: &mut String, e: &Expr)
    ensures
        final(out)@ == old(out)@ + expr_text(*e),
    decreases e,
{
    match e {
        Expr::ColumnRef { column, .. } => column.write_sql(out),
        Expr::Literal { value, .. } => value.write_sql(out),
        Expr::FunctionCall { func, .. } => write_function_call(out, func),
        Expr::BinaryOp { op, left, right, .. } => {
            let ghost start = out@;
            write_expr(out, left);
            out.append(" ");
            op.write_sql(out);
            out.append(" ");
            write_expr(out, right);
            assert(out@ =~= start + expr_text(*e));
        },
    }
}

impl SqlText for Expr {
    open spec fn sql_text(&self) -> Seq<char> {
        expr_text(*self)
    }

    fn write_sql(&self, out: &mut String) {
        write_expr(out, self);
    }
}

impl Expr {
    /// The SQL text of the expression.
    pub fn to_string(&self) -> (s: String)
        ensures
            s@ == expr_text(*self),
    {
        let mut s = String::new();
        write_expr(&mut s, self);
        s
    }
}


/// A parenthesised row of expressions, `(e1, e2, ...)`, as in `VALUES` and `GROUPING SETS`.
impl SqlText for Vec<Expr> {
    open spec fn sql_text(&self) -> Seq<char> {
        "("@ + exprs_text(self@) + ")"@
    }

    fn write_sql(&self, out: &mut String) {
        out.append("(");
        write_exprs(out, self);
        out.append(")");
    }
}

/// A named argument `name=>value` of a table function.
impl SqlText for (Identifier, Expr) {
    open spec fn sql_text(&self) -> Seq<char> {
        identifier_text(self.0) + "=>"@ + expr_text(self.1)
    }

    fn write_sql(&self, out: &mut String) {
        self.0.write_sql(out);
        out.append("=>");
        self.1.write_sql(out);
    }
}

/// A lambda `param -> body` or `(p1, p2, ...) -> body`.
#[derive(Debug, PartialEq)]
pub struct Lambda {
    pub params: Vec<Identifier>,
    pub expr: Box<Expr>,
}

/// The SQL text of a lambda: a single parameter stands bare, any other number
/// of them stands in parentheses.
pub open spec fn lambda_text(l: Lambda) -> Seq<char> {
    (if l.params@.len() == 1 {
        identifier_text(l.params@[0])
    } else {
        "("@ + sep_list(l.params@, ", "@) + ")"@
    }) + " -> "@ + expr_text(*l.expr)
}

impl SqlText for Lambda {
    open spec fn sql_text(&self) -> Seq<char> {
        lambda_text(*self)
    }

    fn write_sql(&self, out: &mut String) {
        if self.params.len() == 1 {
            self.params[0].write_sql(out);
        } else {
            out.append("(");
            write_separated_list(out, self.params.as_slice(), ", ");
            out.append(")");
        }
        out.append(" -> ");
        self.expr.write_sql(out);
    }
}

/// One optimizer hint `name(expr)`.
#[derive(Debug, PartialEq)]
pub struct HintItem {
    pub name: Identifier,
    pub expr: Expr,
}

impl SqlText for HintItem {
    open spec fn sql_text(&self) -> Seq<char> {
        identifier_text(self.name) + "("@ + expr_text(self.expr) + ")"@
    }

    fn write_sql(&self, out: &mut String) {
        self.name.write_sql(out);
        out.append("(");
        self.expr.write_sql(out);
        out.append(")");
    }
}

/// Optimizer hints `/*+ h1 h2 ... */` after `SELECT`.
#[derive(Debug, PartialEq)]
pub struct Hint {
    pub hints_list: Vec<HintItem>,
}

/// The texts of `items`, each followed by a space.
pub open spec fn hint_items_text(items: Seq<HintItem>) -> Seq<char>
    decreases items.len(),
{
    if items.len() == 0 {
        Seq::empty()
    } else {
        hint_items_text(items.drop_last()) + items.last().sql_text() + " "@
    }
}

impl SqlText for Hint {
    open spec fn sql_text(&self) -> Seq<char> {
        "/*+ "@ + hint_items_text(self.hints_list@) + "*/"@
    }

    fn write_sql(&self, out: &mut String) {
        let ghost start = out@;
        out.append("/*+ ");
        let n = self.hints_list.len();
        let mut i: usize = 0;
        assert(self.hints_list@.take(0) =~= Seq::<HintItem>::empty());
        while i < n
            invariant
                n == self.hints_list@.len(),
                i <= n,
                out@ =~= start + "/*+ "@ + hint_items_text(self.hints_list@.take(i as int)),
            decreases n - i,
        {
            assert(self.hints_list@.take(i + 1).drop_last() =~= self.hints_list@.take(i as int));
            self.hints_list[i].write_sql(out);
            out.append(" ");
            i = i + 1;
        }
        assert(self.hints_list@.take(n as int) =~= self.hints_list@);
        out.append("*/");
    }
}

/// A named window `name AS (PARTITION BY ...)` of a `WINDOW` clause.
#[derive(Debug, PartialEq)]
pub struct WindowDefinition {
    pub name: Identifier,
    pub spec: WindowSpec,
}

impl SqlText for WindowDefinition {
    open spec fn sql_text(&self) -> Seq<char> {
        identifier_text(self.name) + " AS "@ + window_spec_text(self.spec)
    }

    fn write_sql(&self, out: &mut String) {
        self.name.write_sql(out);
        out.append(" AS ");
        write_window_spec(out, &self.spec);
    }
}

/// Where staged files are read from: a named stage, or a URI.
#[derive(Debug, Clone, PartialEq, Eq)]
pub enum FileLocation {
    Stage(String),
    Uri(String),
}

impl SqlText for FileLocation {
    open spec fn sql_text(&self) -> Seq<char> {
        match self {
            FileLocation::Stage(s) => "@"@ + s@,
            FileLocation::Uri(u) => quoted(u@, '\''),
        }
    }

    fn write_sql(&self, out: &mut String) {
        match self {
            FileLocation::Stage(s) => {
                out.append("@");
                out.append(s.as_str());
            },
            FileLocation::Uri(u) => write_quoted(out, u.as_str(), '\''),
        }
    }
}

/// A file name, as a quoted string.
impl SqlText for String {
    open spec fn sql_text(&self) -> Seq<char> {
        quoted(self@, '\'')
    }

    fn write_sql(&self, out: &mut String) {
        write_quoted(out, self.as_str(), '\'');
    }
}

/// Options of a query that reads staged files.
#[derive(Debug, Clone, PartialEq, Eq)]
pub struct SelectStageOptions {
    pub files: Option<Vec<String>>,
    pub file_format: Option<String>,
    pub pattern: Option<String>,
}

/// The texts of the options that are set, in the order files, file format, pattern.
pub open spec fn stage_option_parts(o: SelectStageOptions) -> Seq<Seq<char>> {
    (match o.files {
        Some(fs) => seq!["FILES => ("@ + sep_list(fs@, ","@) + ")"@],
        None => Seq::empty(),
    }) + (match o.file_format {
        Some(f) => seq!["FILE_FORMAT => "@ + quoted(f@, '\'')],
        None => Seq::empty(),
    }) + (match o.pattern {
        Some(p) => seq!["PATTERN => "@ + quoted(p@, '\'')],
        None => Seq::empty(),
    })
}

/// `parts` with `sep` between each two neighbours.
pub open spec fn join_parts(parts: Seq<Seq<char>>, sep: Seq<char>) -> Seq<char>
    decreases parts.len(),
{
    if parts.len() == 0 {
        Seq::empty()
    } else if parts.len() == 1 {
        parts[0]
    } else {
        join_parts(parts.drop_last(), sep) + sep + parts.last()
    }
}

impl SelectStageOptions {
    /// Whether no option is set.
    pub fn is_empty(&self) -> (b: bool)
        ensures
            b == (self.files is None && self.file_format is None && self.pattern is None),
    {
        self.files.is_none() && self.file_format.is_none() && self.pattern.is_none()
    }
}

/// The views of `parts`.
pub open spec fn string_views(parts: Seq<String>) -> Seq<Seq<char>> {
    parts.map_values(|s: String| s@)
}

/// Appends `parts` to `out`, with `sep` between each two neighbours.
fn write_joined(out: &mut String, parts: &Vec<String>, sep: &str)
    ensures
        final(out)@ == old(out)@ + join_parts(string_views(parts@), sep@),
{
    let ghost start = out@;
    let n = parts.len();
    let mut i: usize = 0;
    assert(string_views(parts@.take(0)) =~= Seq::<Seq<char>>::empty());
    while i < n
        invariant
            n == parts@.len(),
            i <= n,
            out@ =~= start + join_parts(string_views(parts@.take(i as int)), sep@),
        decreases n - i,
    {
        assert(string_views(parts@.take(i + 1)).drop_last() =~= string_views(
            parts@.take(i as int),
        ));
        assert(string_views(parts@.take(i + 1)).last() == parts@[i as int]@);
        if i > 0 {
            out.append(sep);
        }
        out.append(parts[i].as_str());
        i = i + 1;
    }
    assert(parts@.take(n as int) =~= parts@);
}

impl SelectStageOptions {
    /// The texts of the options that are set.
    fn option_parts(&self) -> (parts: Vec<String>)
        ensures
            string_views(parts@) =~= stage_option_parts(*self),
    {
        let mut parts: Vec<String> = Vec::new();
        if let Some(files) = &self.files {
            let mut s = String::new();
            s.append("FILES => (");
            write_separated_list(&mut s, files.as_slice(), ",");
            s.append(")");
            parts.push(s);
        }
        let ghost after_files = parts@;
        if let Some(f) = &self.file_format {
            let mut s = String::new();
            s.append("FILE_FORMAT => ");
            write_quoted(&mut s, f.as_str(), '\'');
            parts.push(s);
        }
        if let Some(p) = &self.pattern {
            let mut s = String::new();
            s.append("PATTERN => ");
            write_quoted(&mut s, p.as_str(), '\'');
            parts.push(s);
        }
        assert(string_views(after_files) =~= match self.files {
            Some(fs) => seq!["FILES => ("@ + sep_list(fs@, ","@) + ")"@],
            None => Seq::<Seq<char>>::empty(),
        });
        parts
    }
}

impl SqlText for SelectStageOptions {
    open spec fn sql_text(&self) -> Seq<char> {
        " ("@ + join_parts(stage_option_parts(*self), ","@) + ")"@
    }

    fn write_sql(&self, out: &mut String) {
        let parts = self.option_parts();
        out.append(" (");
        write_joined(out, &parts, ",");
        out.append(")");
    }
}

} // verus!
