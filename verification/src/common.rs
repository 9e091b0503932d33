//! Source positions, identifiers and the text-building helpers shared by the AST.

use vstd::prelude::*;

verus! {

/// A half-open byte range in the query text.
#[derive(Debug, Clone, Copy, PartialEq, Eq)]
pub struct Range {
    pub start: u32,
    pub end: u32,
}

/// Where a node came from in the query text, if known.
pub type Span = Option<Range>;

/// Appends one character to `out`.
///
/// Calls `String::push`, which appends the given `char` to the end of the string.
#[verifier::external_body]
pub(crate) fn push_char(out: &mut String, c: char)
    ensures
        final(out)@ == old(out)@.push(c),
{
    out.push(c);
}

/// `s` with every occurrence of `q` doubled.
pub open spec fn escape_quote(s: Seq<char>, q: char) -> Seq<char>
    decreases s.len(),
{
    if s.len() == 0 {
        Seq::empty()
    } else {
        escape_quote(s.drop_last(), q) + if s.last() == q {
            seq![q, q]
        } else {
            seq![s.last()]
        }
    }
}

/// `s` between two `q`, with every `q` inside doubled.
pub open spec fn quoted(s: Seq<char>, q: char) -> Seq<char> {
    seq![q] + escape_quote(s, q) + seq![q]
}

/// Appends `s` to `out` between two `q`, doubling every `q` inside.
pub fn write_quoted(out: &mut String, s: &str, q: char)
    ensures
        final(out)@ == old(out)@ + quoted(s@, q),
{
    let ghost start = out@;
    push_char(out, q);
    let n = s.unicode_len();
    let mut i: usize = 0;
    while i < n
        invariant
            n == s@.len(),
            i <= n,
            out@ == start + seq![q] + escape_quote(s@.take(i as int), q),
        decreases n - i,
    {
        let c = s.get_char(i);
        assert(s@.take(i + 1).drop_last() =~= s@.take(i as int));
        push_char(out, c);
        if c == q {
            push_char(out, q);
        }
        i = i + 1;
    }
    assert(s@.take(n as int) =~= s@);
    push_char(out, q);
}


/// The SQL text of a digit `d < 10`.
pub open spec fn digit_char(d: nat) -> char {
    (48 + d) as char
}

/// The decimal numeral of `n`, without leading zeros.
pub open spec fn decimal(n: nat) -> Seq<char>
    decreases n,
{
    if n < 10 {
        seq![digit_char(n)]
    } else {
        decimal(n / 10).push(digit_char(n % 10))
    }
}

/// Appends the decimal numeral of `n` to `out`.
pub fn write_decimal(out: &mut String, n: u64)
    ensures
        final(out)@ == old(out)@ + decimal(n as nat),
    decreases n,
{
    if n >= 10 {
        write_decimal(out, n / 10);
    }
    let d: u8 = (n % 10) as u8;
    let c: char = (48u8 + d) as char;
    assert(c == digit_char((n % 10) as nat));
    push_char(out, c);
    assert(out@ =~= old(out)@ + decimal(n as nat));
}

/// A node that renders as SQL text.
pub trait SqlText {
    /// The SQL text of the node.
    spec fn sql_text(&self) -> Seq<char>;

    /// Appends the SQL text of the node to `out`.
    fn write_sql(&self, out: &mut String)
        ensures
            final(out)@ == old(out)@ + self.sql_text(),
    ;
}

/// The SQL texts of `items`, with `sep` between each two neighbours.
pub open spec fn sep_list<T: SqlText>(items: Seq<T>, sep: Seq<char>) -> Seq<char>
    decreases items.len(),
{
    if items.len() == 0 {
        Seq::empty()
    } else if items.len() == 1 {
        items[0].sql_text()
    } else {
        sep_list(items.drop_last(), sep) + sep + items.last().sql_text()
    }
}

/// Appends the SQL texts of `items` to `out`, with `sep` between each two neighbours.
pub fn write_separated_list<T: SqlText>(out: &mut String, items: &[T], sep: &str)
    ensures
        final(out)@ == old(out)@ + sep_list(items@, sep@),
{
    let ghost start = out@;
    let n = items.len();
    let mut i: usize = 0;
    assert(items@.take(0) =~= Seq::<T>::empty());
    while i < n
        invariant
            n == items@.len(),
            i <= n,
            out@ =~= start + sep_list(items@.take(i as int), sep@),
        decreases n - i,
    {
        assert(items@.take(i + 1).drop_last() =~= items@.take(i as int));
        assert(items@.take(i + 1).last() == items@[i as int]);
        if i > 0 {
            out.append(sep);
        }
        items[i].write_sql(out);
        i = i + 1;
    }
    assert(items@.take(n as int) =~= items@);
}


/// A name in a query: a column, table, database, alias, function or window.
#[derive(Debug, Clone, PartialEq, Eq)]
pub struct Identifier {
    pub span: Span,
    pub name: String,
    /// The quote character the name was written with, if any.
    pub quote: Option<char>,
}

/// The SQL text of an identifier: the bare name, or the name between its
/// quotes with each quote inside doubled.
pub open spec fn identifier_text(id: Identifier) -> Seq<char> {
    match id.quote {
        Some(q) => quoted(id.name@, q),
        None => id.name@,
    }
}

impl SqlText for Identifier {
    open spec fn sql_text(&self) -> Seq<char> {
        identifier_text(*self)
    }

    fn write_sql(&self, out: &mut String) {
        match self.quote {
            Some(q) => write_quoted(out, self.name.as_str(), q),
            None => out.append(self.name.as_str()),
        }
    }
}

impl Identifier {
    /// The SQL text of the identifier.
    pub fn to_string(&self) -> (s: String)
        ensures
            s@ == identifier_text(*self),
    {
        let mut s = String::new();
        self.write_sql(&mut s);
        s
    }
}


/// What `str::to_lowercase` returns for a string with the characters `s`.
pub uninterp spec fn lowercase(s: Seq<char>) -> Seq<char>;

/// Calls `str::to_lowercase`, which returns the lowercase equivalent of `s`
/// as a new `String`, "lowercase" as Unicode's `Lowercase` property defines it.
/// Only that the result is that function of `s` is stated; the mapping itself is not.
#[verifier::external_body]
pub(crate) fn to_lowercase(s: &str) -> (r: String)
    ensures
        r@ == lowercase(s@),
{
    s.to_lowercase()
}


/// A boxed node renders as the node it holds.
impl<T: SqlText> SqlText for Box<T> {
    open spec fn sql_text(&self) -> Seq<char> {
        (**self).sql_text()
    }

    fn write_sql(&self, out: &mut String) {
        (**self).write_sql(out);
    }
}

/// `prefix` followed by the text of `x`, or nothing when there is no `x`.
pub open spec fn opt_text<T: SqlText>(prefix: Seq<char>, x: Option<T>) -> Seq<char> {
    match x {
        Some(x) => prefix + x.sql_text(),
        None => Seq::empty(),
    }
}

/// Appends `prefix` and the text of `x` to `out`, when there is an `x`.
pub fn write_opt<T: SqlText>(out: &mut String, prefix: &str, x: &Option<T>)
    ensures
        final(out)@ == old(out)@ + opt_text(prefix@, *x),
{
    match x {
        Some(x) => {
            out.append(prefix);
            x.write_sql(out);
        },
        None => {},
    }
}

/// `text` when `flag` holds, else nothing.
pub open spec fn flag_text(flag: bool, text: Seq<char>) -> Seq<char> {
    if flag {
        text
    } else {
        Seq::empty()
    }
}

/// Appends `text` to `out` when `flag` holds.
pub fn write_flag(out: &mut String, flag: bool, text: &str)
    ensures
        final(out)@ == old(out)@ + flag_text(flag, text@),
{
    if flag {
        out.append(text);
    }
}


/// The SQL text of `node`, as a new string.
pub fn sql_string<T: SqlText>(node: &T) -> (s: String)
    ensures
        s@ == node.sql_text(),
{
    let mut s = String::new();
    node.write_sql(&mut s);
    s
}

} // verus!
