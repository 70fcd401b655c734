//! Runtime expression trees: symbols, numbers, strings, bytes and the
//! list, vector, map, call and extension forms, each with a mathematical
//! view, plus the field helpers the sites use to build and read maps.

use vstd::prelude::*;

use crate::numtext::{decimal, decimal_chars, parse_unsigned, parse_unsigned_chars};
use crate::text::{chars_of, str_eq, string_of};

verus! {

/// What a symbol says: its namespace, if any, and its name.
pub type SymView = (Option<Seq<char>>, Seq<char>);

/// A symbol, plain or qualified by a namespace.
#[derive(Clone, Debug, PartialEq, Eq)]
pub struct Symbol {
    /// Namespace, for a qualified symbol.
    pub namespace: Option<String>,
    /// Name.
    pub name: String,
}

impl View for Symbol {
    type V = SymView;

    open spec fn view(&self) -> SymView {
        (
            match self.namespace {
                Some(n) => Some(n@),
                None => None,
            },
            self.name@,
        )
    }
}

/// The text of a symbol: `namespace/name`, or the name alone.
pub open spec fn qualified_text(s: SymView) -> Seq<char> {
    match s.0 {
        Some(n) => n + seq!['/'] + s.1,
        None => s.1,
    }
}

impl Symbol {
    /// A plain symbol.
    pub fn new(name: &str) -> (r: Self)
        ensures
            r@ == (None::<Seq<char>>, name@),
    {
        Symbol { namespace: None, name: name.to_owned() }
    }

    /// A plain symbol from owned text.
    pub fn from_string(name: String) -> (r: Self)
        ensures
            r@ == (None::<Seq<char>>, name@),
    {
        Symbol { namespace: None, name }
    }

    /// A qualified symbol.
    pub fn qualified(namespace: &str, name: &str) -> (r: Self)
        ensures
            r@ == (Some(namespace@), name@),
    {
        Symbol { namespace: Some(namespace.to_owned()), name: name.to_owned() }
    }

    /// The symbol's text, `namespace/name` for a qualified one.
    pub fn as_qualified_str(&self) -> (r: String)
        ensures
            r@ == qualified_text(self@),
    {
        match &self.namespace {
            Some(n) => {
                let mut out = chars_of(n.as_str());
                out.push('/');
                let mut rest = chars_of(self.name.as_str());
                out.append(&mut rest);
                string_of(out.as_slice())
            },
            None => self.name.clone(),
        }
    }

    /// Whether two symbols are the same.
    pub fn same(&self, other: &Symbol) -> (r: bool)
        ensures
            r == (self@ == other@),
    {
        let ns = match (&self.namespace, &other.namespace) {
            (Some(a), Some(b)) => str_eq(a.as_str(), b.as_str()),
            (None, None) => true,
            _ => false,
        };
        ns && str_eq(self.name.as_str(), other.name.as_str())
    }

    /// A copy of this symbol.
    pub fn duplicate(&self) -> (r: Self)
        ensures
            r@ == self@,
    {
        Symbol {
            namespace: match &self.namespace {
                Some(n) => Some(n.clone()),
                None => None,
            },
            name: self.name.clone(),
        }
    }
}

/// A number literal: its numeric domain and canonical text.
#[derive(Clone, Debug, PartialEq, Eq)]
pub struct NumberLiteral {
    /// Numeric domain, such as `numbers/u64`.
    pub domain: Symbol,
    /// Canonical decimal text.
    pub canonical: String,
}

/// A runtime expression.
#[derive(Debug)]
pub enum Expr {
    /// The empty value.
    Nil,
    /// A boolean.
    Bool(bool),
    /// A number literal.
    Number(NumberLiteral),
    /// A string.
    String(String),
    /// A byte string.
    Bytes(Vec<u8>),
    /// A symbol.
    Symbol(Symbol),
    /// A list.
    List(Vec<Expr>),
    /// A vector.
    Vector(Vec<Expr>),
    /// A map, as ordered key and value pairs.
    Dict(Vec<(Expr, Expr)>),
    /// A call of an operator on arguments.
    Call {
        /// The operator.
        operator: Box<Expr>,
        /// The arguments.
        args: Vec<Expr>,
    },
    /// A tagged extension.
    Extension {
        /// The tag.
        tag: Symbol,
        /// The payload.
        payload: Box<Expr>,
    },
}

/// What an expression says.
pub enum ExprView {
    /// The empty value.
    Nil,
    /// A boolean.
    Bool(bool),
    /// A number: domain and canonical text.
    Number(SymView, Seq<char>),
    /// A string.
    Text(Seq<char>),
    /// A byte string.
    Bytes(Seq<u8>),
    /// A symbol.
    Sym(SymView),
    /// A list.
    List(Seq<ExprView>),
    /// A vector.
    Vector(Seq<ExprView>),
    /// A map.
    Dict(Seq<(ExprView, ExprView)>),
    /// A call.
    Call(Box<ExprView>, Seq<ExprView>),
    /// A tagged extension.
    Extension(SymView, Box<ExprView>),
}

/// The view of an expression.
pub open spec fn view_of(e: Expr) -> ExprView
    decreases e,
{
    match e {
        Expr::Nil => ExprView::Nil,
        Expr::Bool(b) => ExprView::Bool(b),
        Expr::Number(n) => ExprView::Number(n.domain@, n.canonical@),
        Expr::String(s) => ExprView::Text(s@),
        Expr::Bytes(b) => ExprView::Bytes(b@),
        Expr::Symbol(s) => ExprView::Sym(s@),
        Expr::List(items) => ExprView::List(
            Seq::new(items@.len(), |i: int| if 0 <= i < items@.len() { view_of(items@[i]) } else { ExprView::Nil }),
        ),
        Expr::Vector(items) => ExprView::Vector(
            Seq::new(items@.len(), |i: int| if 0 <= i < items@.len() { view_of(items@[i]) } else { ExprView::Nil }),
        ),
        Expr::Dict(entries) => ExprView::Dict(
            Seq::new(
                entries@.len(),
                |i: int|
                    if 0 <= i < entries@.len() {
                        (view_of(entries@[i].0), view_of(entries@[i].1))
                    } else {
                        (ExprView::Nil, ExprView::Nil)
                    },
            ),
        ),
        Expr::Call { operator, args } => ExprView::Call(
            Box::new(view_of(*operator)),
            Seq::new(args@.len(), |i: int| if 0 <= i < args@.len() { view_of(args@[i]) } else { ExprView::Nil }),
        ),
        Expr::Extension { tag, payload } => ExprView::Extension(tag@, Box::new(view_of(*payload))),
    }
}

impl View for Expr {
    type V = ExprView;

    open spec fn view(&self) -> ExprView {
        view_of(*self)
    }
}

/// The views of a list of expressions.
pub open spec fn expr_views(v: Seq<Expr>) -> Seq<ExprView> {
    v.map_values(|e: Expr| view_of(e))
}

/// The views of a list of map entries.
pub open spec fn entry_views(v: Seq<(Expr, Expr)>) -> Seq<(ExprView, ExprView)> {
    v.map_values(|p: (Expr, Expr)| (view_of(p.0), view_of(p.1)))
}

/// A list expression is the list of its items' views.
pub proof fn lemma_list_view(items: Vec<Expr>)
    ensures
        view_of(Expr::List(items)) == ExprView::List(expr_views(items@)),
{
    if let ExprView::List(s) = view_of(Expr::List(items)) {
        assert(s =~= expr_views(items@));
    }
}

/// A vector expression is the list of its items' views.
pub proof fn lemma_vector_view(items: Vec<Expr>)
    ensures
        view_of(Expr::Vector(items)) == ExprView::Vector(expr_views(items@)),
{
    if let ExprView::Vector(s) = view_of(Expr::Vector(items)) {
        assert(s =~= expr_views(items@));
    }
}

/// A map expression is the list of its entries' views.
pub proof fn lemma_dict_view(entries: Vec<(Expr, Expr)>)
    ensures
        view_of(Expr::Dict(entries)) == ExprView::Dict(entry_views(entries@)),
{
    if let ExprView::Dict(s) = view_of(Expr::Dict(entries)) {
        assert(s =~= entry_views(entries@));
    }
}

/// A call expression is its operator's view and its arguments' views.
pub proof fn lemma_call_view(operator: Box<Expr>, args: Vec<Expr>)
    ensures
        view_of(Expr::Call { operator, args }) == ExprView::Call(Box::new(view_of(*operator)), expr_views(args@)),
{
    if let ExprView::Call(_, s) = view_of(Expr::Call { operator, args }) {
        assert(s =~= expr_views(args@));
    }
}

/// A list expression built from items.
pub fn list_expr(items: Vec<Expr>) -> (r: Expr)
    ensures
        r@ == ExprView::List(expr_views(items@)),
{
    proof {
        lemma_list_view(items);
    }
    Expr::List(items)
}

/// A map expression built from entries.
pub fn dict_expr(entries: Vec<(Expr, Expr)>) -> (r: Expr)
    ensures
        r@ == ExprView::Dict(entry_views(entries@)),
{
    proof {
        lemma_dict_view(entries);
    }
    Expr::Dict(entries)
}

/// A vector expression built from items.
pub fn vector_expr(items: Vec<Expr>) -> (r: Expr)
    ensures
        r@ == ExprView::Vector(expr_views(items@)),
{
    proof {
        lemma_vector_view(items);
    }
    Expr::Vector(items)
}

/// The view of a plain symbol key.
pub open spec fn key_view(name: Seq<char>) -> ExprView {
    ExprView::Sym((None, name))
}

/// A plain symbol key.
pub fn key(name: &str) -> (r: Expr)
    ensures
        r@ == key_view(name@),
{
    Expr::Symbol(Symbol::new(name))
}

/// A string entry.
pub fn string_field(name: &str, value: &str) -> (r: (Expr, Expr))
    ensures
        r.0@ == key_view(name@),
        r.1@ == ExprView::Text(value@),
{
    (key(name), Expr::String(value.to_owned()))
}

/// A qualified-symbol entry.
pub fn symbol_field(name: &str, namespace: &str, symbol: &str) -> (r: (Expr, Expr))
    ensures
        r.0@ == key_view(name@),
        r.1@ == ExprView::Sym((Some(namespace@), symbol@)),
{
    (key(name), Expr::Symbol(Symbol::qualified(namespace, symbol)))
}

/// A boolean entry.
pub fn bool_field(name: &str, value: bool) -> (r: (Expr, Expr))
    ensures
        r.0@ == key_view(name@),
        r.1@ == ExprView::Bool(value),
{
    (key(name), Expr::Bool(value))
}

/// A byte-string entry.
pub fn bytes_field(name: &str, value: Vec<u8>) -> (r: (Expr, Expr))
    ensures
        r.0@ == key_view(name@),
        r.1@ == ExprView::Bytes(value@),
{
    (key(name), Expr::Bytes(value))
}

/// A number expression in a qualified domain, written in decimal.
pub fn number_expr(namespace: &str, domain: &str, value: u64) -> (r: Expr)
    ensures
        r@ == ExprView::Number((Some(namespace@), domain@), decimal(value as nat)),
{
    let digits = decimal_chars(value);
    Expr::Number(NumberLiteral { domain: Symbol::qualified(namespace, domain), canonical: string_of(digits.as_slice()) })
}

/// The value of the first entry keyed `name`, if any.
pub open spec fn find_field(entries: Seq<(ExprView, ExprView)>, name: Seq<char>) -> Option<ExprView>
    decreases entries.len(),
{
    if entries.len() == 0 {
        None
    } else if entries[0].0 == key_view(name) {
        Some(entries[0].1)
    } else {
        find_field(entries.drop_first(), name)
    }
}

/// Whether `e` is the plain symbol `name`.
pub fn is_key(e: &Expr, name: &str) -> (r: bool)
    ensures
        r == (e@ == key_view(name@)),
{
    match e {
        Expr::Symbol(s) => match &s.namespace {
            None => str_eq(s.name.as_str(), name),
            Some(_) => false,
        },
        _ => false,
    }
}

/// The value of the first entry keyed `name`.
pub fn optional_field<'a>(entries: &'a [(Expr, Expr)], name: &str) -> (r: Option<&'a Expr>)
    ensures
        match find_field(entry_views(entries@), name@) {
            Some(v) => r matches Some(e) && e@ == v,
            None => r is None,
        },
{
    let ghost es = entry_views(entries@);
    let mut i: usize = 0;
    assert(es.skip(0) =~= es);
    while i < entries.len()
        invariant
            es == entry_views(entries@),
            i <= entries@.len(),
            find_field(es, name@) == find_field(es.skip(i as int), name@),
        decreases entries@.len() - i,
    {
        assert(es.skip(i as int)[0] == (entries@[i as int].0@, entries@[i as int].1@));
        if is_key(&entries[i].0, name) {
            return Some(&entries[i].1);
        }
        assert(es.skip(i as int).drop_first() =~= es.skip(i + 1));
        i = i + 1;
    }
    None
}

/// The unsigned value an expression spells as a `u64` number literal.
pub open spec fn number_value(e: ExprView) -> Option<int> {
    match e {
        ExprView::Number(_, text) => parse_unsigned(text, u64::MAX as int),
        _ => None,
    }
}

/// Reads a `u64` number literal.
pub fn number_of(e: &Expr) -> (r: Option<u64>)
    ensures
        match number_value(e@) {
            Some(v) => r == Some(v as u64),
            None => r is None,
        },
        number_value(e@) matches Some(v) ==> 0 <= v <= u64::MAX,
{
    proof {
        if let ExprView::Number(_, t) = e@ {
            crate::numtext::lemma_parse_unsigned_bounds(t, u64::MAX as int);
        }
    }
    match e {
        Expr::Number(n) => {
            let cs = chars_of(n.canonical.as_str());
            parse_unsigned_chars(cs.as_slice(), u64::MAX)
        },
        _ => None,
    }
}

} // verus!
