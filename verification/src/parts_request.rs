//! Request expressions of the parts site: a catalog lookup by path, or a
//! supplier order with its lines, read from a map whose fields are found
//! by their first occurrence.

use vstd::prelude::*;

use crate::expr::{Expr, ExprView, dict_expr, entry_views, expr_views, key, key_view, list_expr, number_expr, string_field};
use crate::kernel::{Error, Result};
use crate::numtext::{decimal, parse_unsigned, parse_unsigned_chars};
use crate::parts::{PartLine, PartLineView, Supplier, line_views, parse_supplier, supplier_label};
use crate::request::{key_of, key_text, value_of, value_text};
use crate::text::{chars_of, push_str, str_eq, str_views, string_of, strip_leading};

verus! {

/// Parsed request served by the modeled parts site.
#[derive(Clone, Debug, PartialEq, Eq)]
pub enum PartsRequest {
    /// Fetch one catalog part by path.
    CatalogGet {
        /// Catalog path segments.
        path: Vec<String>,
    },
    /// Place a supplier order.
    Order {
        /// Supplier mode.
        supplier: Supplier,
        /// Order lines.
        lines: Vec<PartLine>,
    },
}

/// What a parts request asks for.
pub enum PartsRequestView {
    /// A catalog lookup by path segments.
    CatalogGet(Seq<Seq<char>>),
    /// An order from a supplier.
    Order(Supplier, Seq<PartLineView>),
}

/// The views of a list of strings.
pub open spec fn text_views(v: Seq<String>) -> Seq<Seq<char>> {
    v.map_values(|s: String| s@)
}

impl View for PartsRequest {
    type V = PartsRequestView;

    open spec fn view(&self) -> PartsRequestView {
        match self {
            PartsRequest::CatalogGet { path } => PartsRequestView::CatalogGet(text_views(path@)),
            PartsRequest::Order { supplier, lines } => PartsRequestView::Order(*supplier, line_views(lines@)),
        }
    }
}

/// The value of the first entry whose key names `name`.
pub open spec fn first_named(es: Seq<(ExprView, ExprView)>, name: Seq<char>) -> Option<ExprView>
    decreases es.len(),
{
    if es.len() == 0 {
        None
    } else if key_text(es[0].0) == Some(name) {
        Some(es[0].1)
    } else {
        first_named(es.drop_first(), name)
    }
}

/// The refusal of a request that lacks field `name`.
pub open spec fn missing_field(name: Seq<char>) -> Seq<char> {
    "missing auto parts request field "@ + name
}

/// The refusal of a field `name` that should hold a list.
pub open spec fn not_a_list(name: Seq<char>) -> Seq<char> {
    "auto parts request field "@ + name + " must be a list"@
}

/// The refusal of a value that is neither a string nor a symbol.
pub open spec fn not_text() -> Seq<char> {
    "auto parts request field must be string or symbol"@
}

/// A text value: a string, or a symbol's text.
pub open spec fn text_of(e: ExprView) -> core::result::Result<Seq<char>, Seq<char>> {
    match value_text(e) {
        Some(t) => Ok(t),
        None => Err(not_text()),
    }
}

/// The text of the required field `name`.
pub open spec fn required_text(es: Seq<(ExprView, ExprView)>, name: Seq<char>) -> core::result::Result<Seq<char>, Seq<char>> {
    match first_named(es, name) {
        None => Err(missing_field(name)),
        Some(v) => text_of(v),
    }
}

/// The text of the optional field `name`; a value that is not text counts
/// as absent.
pub open spec fn optional_text(es: Seq<(ExprView, ExprView)>, name: Seq<char>) -> Option<Seq<char>> {
    match first_named(es, name) {
        Some(v) => value_text(v),
        None => None,
    }
}

/// The quantity field of an order line: a number whose text reads as a
/// `u32`.
pub open spec fn qty_value(es: Seq<(ExprView, ExprView)>) -> core::result::Result<u32, Seq<char>> {
    match first_named(es, "qty"@) {
        None => Err(missing_field("qty"@)),
        Some(ExprView::Number(_, t)) => match parse_unsigned(t, u32::MAX as int) {
            Some(v) => Ok(v as u32),
            None => Err("auto parts request field qty must be a u32"@),
        },
        Some(_) => Err("auto parts request field qty must be numeric"@),
    }
}

/// One order line, read in the order SKU, description, quantity.
pub open spec fn parse_line(e: ExprView) -> core::result::Result<PartLineView, Seq<char>> {
    match e {
        ExprView::Dict(es) => match required_text(es, "sku"@) {
            Err(m) => Err(m),
            Ok(sku) => match required_text(es, "description"@) {
                Err(m) => Err(m),
                Ok(description) => match qty_value(es) {
                    Err(m) => Err(m),
                    Ok(qty) => Ok((sku, optional_text(es, "oem"@), description, qty)),
                },
            },
        },
        _ => Err("auto parts order line must be a map"@),
    }
}

/// Every line of a list, or the first refusal.
pub open spec fn parse_lines(items: Seq<ExprView>) -> core::result::Result<Seq<PartLineView>, Seq<char>>
    decreases items.len(),
{
    if items.len() == 0 {
        Ok(Seq::empty())
    } else {
        match parse_lines(items.drop_last()) {
            Err(m) => Err(m),
            Ok(ls) => match parse_line(items.last()) {
                Err(m) => Err(m),
                Ok(l) => Ok(ls.push(l)),
            },
        }
    }
}

/// Every text of a list, or the first refusal.
pub open spec fn parse_texts(items: Seq<ExprView>) -> core::result::Result<Seq<Seq<char>>, Seq<char>>
    decreases items.len(),
{
    if items.len() == 0 {
        Ok(Seq::empty())
    } else {
        match parse_texts(items.drop_last()) {
            Err(m) => Err(m),
            Ok(ts) => match text_of(items.last()) {
                Err(m) => Err(m),
                Ok(t) => Ok(ts.push(t)),
            },
        }
    }
}

/// The list items of the required field `name`.
pub open spec fn list_items(es: Seq<(ExprView, ExprView)>, name: Seq<char>) -> core::result::Result<Seq<ExprView>, Seq<char>> {
    match first_named(es, name) {
        None => Err(missing_field(name)),
        Some(ExprView::List(items)) => Ok(items),
        Some(_) => Err(not_a_list(name)),
    }
}

/// The order a map asks for, once its operation names an order.
pub open spec fn parse_order(es: Seq<(ExprView, ExprView)>) -> core::result::Result<PartsRequestView, Seq<char>> {
    match required_text(es, "supplier"@) {
        Err(m) => Err(m),
        Ok(label) => match parse_supplier(label) {
            None => Err("unknown auto parts supplier"@),
            Some(supplier) => match list_items(es, "lines"@) {
                Err(m) => Err(m),
                Ok(items) => match parse_lines(items) {
                    Err(m) => Err(m),
                    Ok(lines) => Ok(PartsRequestView::Order(supplier, lines)),
                },
            },
        },
    }
}

/// The request an expression spells, or the refusal text.
pub open spec fn parse_parts(e: ExprView) -> core::result::Result<PartsRequestView, Seq<char>> {
    match e {
        ExprView::Dict(es) => match required_text(es, "op"@) {
            Err(m) => Err(m),
            Ok(op) => if op == "catalog/get"@ {
                match list_items(es, "path"@) {
                    Err(m) => Err(m),
                    Ok(items) => match parse_texts(items) {
                        Err(m) => Err(m),
                        Ok(path) => Ok(PartsRequestView::CatalogGet(path)),
                    },
                }
            } else if op == "order/place"@ || op == "auto/order"@ {
                parse_order(es)
            } else {
                Err("unknown auto parts operation "@ + op)
            },
        },
        _ => Err("auto parts request must be a map"@),
    }
}

fn parts_error(text: &str) -> (e: Error)
    ensures
        e matches Error::Eval(m) && m@ == text@,
{
    Error::Eval(text.to_owned())
}

fn first_named_of<'a>(entries: &'a [(Expr, Expr)], name: &str) -> (r: Option<&'a Expr>)
    ensures
        match first_named(entry_views(entries@), name@) {
            Some(v) => r matches Some(e) && e@ == v,
            None => r is None,
        },
{
    let ghost es = entry_views(entries@);
    let mut i: usize = 0;
    assert(es.skip(0) =~= es);
    while i < entries.len()
        invariant
            es == entry_views(entries@),
            i <= entries@.len(),
            first_named(es, name@) == first_named(es.skip(i as int), name@),
        decreases entries@.len() - i,
    {
        assert(es.skip(i as int)[0] == (entries@[i as int].0@, entries@[i as int].1@));
        match key_of(&entries[i].0) {
            Some(k) => {
                if str_eq(k.as_str(), name) {
                    return Some(&entries[i].1);
                }
            },
            None => {},
        }
        assert(es.skip(i as int).drop_first() =~= es.skip(i + 1));
        i = i + 1;
    }
    None
}

fn missing_error(name: &str) -> (e: Error)
    ensures
        e matches Error::Eval(m) && m@ == missing_field(name@),
{
    let mut text = chars_of("missing auto parts request field ");
    push_str(&mut text, name);
    Error::Eval(string_of(text.as_slice()))
}

fn list_error(name: &str) -> (e: Error)
    ensures
        e matches Error::Eval(m) && m@ == not_a_list(name@),
{
    let mut text = chars_of("auto parts request field ");
    push_str(&mut text, name);
    push_str(&mut text, " must be a list");
    Error::Eval(string_of(text.as_slice()))
}

fn text_value(e: &Expr) -> (r: Result<String>)
    ensures
        match text_of(e@) {
            Ok(t) => r matches Ok(s) && s@ == t,
            Err(m) => r matches Err(Error::Eval(x)) && x@ == m,
        },
{
    match value_of(e) {
        Some(t) => Ok(t),
        None => Err(parts_error("auto parts request field must be string or symbol")),
    }
}

fn required_text_of(entries: &[(Expr, Expr)], name: &str) -> (r: Result<String>)
    ensures
        match required_text(entry_views(entries@), name@) {
            Ok(t) => r matches Ok(s) && s@ == t,
            Err(m) => r matches Err(Error::Eval(x)) && x@ == m,
        },
{
    match first_named_of(entries, name) {
        None => Err(missing_error(name)),
        Some(v) => text_value(v),
    }
}

fn optional_text_of(entries: &[(Expr, Expr)], name: &str) -> (r: Option<String>)
    ensures
        match optional_text(entry_views(entries@), name@) {
            Some(t) => r matches Some(s) && s@ == t,
            None => r is None,
        },
{
    match first_named_of(entries, name) {
        Some(v) => value_of(v),
        None => None,
    }
}

fn qty_of(entries: &[(Expr, Expr)]) -> (r: Result<u32>)
    ensures
        match qty_value(entry_views(entries@)) {
            Ok(q) => r == Ok::<u32, Error>(q),
            Err(m) => r matches Err(Error::Eval(x)) && x@ == m,
        },
{
    match first_named_of(entries, "qty") {
        None => Err(missing_error("qty")),
        Some(Expr::Number(n)) => {
            let cs = chars_of(n.canonical.as_str());
            proof {
                crate::numtext::lemma_parse_unsigned_bounds(cs@, u32::MAX as int);
            }
            match parse_unsigned_chars(cs.as_slice(), 4294967295u64) {
                Some(v) => Ok(v as u32),
                None => Err(parts_error("auto parts request field qty must be a u32")),
            }
        },
        Some(_) => Err(parts_error("auto parts request field qty must be numeric")),
    }
}

fn line_of(e: &Expr) -> (r: Result<PartLine>)
    ensures
        match parse_line(e@) {
            Ok(l) => r matches Ok(x) && x@ == l,
            Err(m) => r matches Err(Error::Eval(x)) && x@ == m,
        },
{
    match e {
        Expr::Dict(entries) => {
            proof {
                crate::expr::lemma_dict_view(*entries);
            }
            let es = entries.as_slice();
            let sku = match required_text_of(es, "sku") {
                Ok(t) => t,
                Err(err) => {
                    return Err(err);
                },
            };
            let oem = optional_text_of(es, "oem");
            let description = match required_text_of(es, "description") {
                Ok(t) => t,
                Err(err) => {
                    return Err(err);
                },
            };
            let qty = match qty_of(es) {
                Ok(q) => q,
                Err(err) => {
                    return Err(err);
                },
            };
            let line = PartLine { sku, oem, description, qty };
            Ok(line)
        },
        _ => Err(parts_error("auto parts order line must be a map")),
    }
}

fn lines_of(items: &[Expr]) -> (r: Result<Vec<PartLine>>)
    ensures
        match parse_lines(expr_views(items@)) {
            Ok(ls) => r matches Ok(v) && line_views(v@) == ls,
            Err(m) => r matches Err(Error::Eval(x)) && x@ == m,
        },
{
    let ghost iv = expr_views(items@);
    let mut out: Vec<PartLine> = Vec::new();
    let mut i: usize = 0;
    assert(iv.take(0) =~= Seq::<ExprView>::empty());
    assert(line_views(out@) =~= Seq::<PartLineView>::empty());
    while i < items.len()
        invariant
            iv == expr_views(items@),
            i <= items@.len(),
            parse_lines(iv.take(i as int)) == Ok::<Seq<PartLineView>, Seq<char>>(line_views(out@)),
        decreases items@.len() - i,
    {
        let ghost t = iv.take(i + 1);
        assert(t.drop_last() =~= iv.take(i as int));
        assert(t.last() == items@[i as int]@);
        match line_of(&items[i]) {
            Ok(l) => {
                let ghost before = out@;
                out.push(l);
                assert(line_views(out@) =~= line_views(before).push(l@));
            },
            Err(err) => {
                proof {
                    lemma_lines_error_sticks(iv, i + 1);
                }
                return Err(err);
            },
        }
        i = i + 1;
    }
    assert(iv.take(items@.len() as int) =~= iv);
    Ok(out)
}

/// Once a prefix of the lines is refused, the whole list is refused the
/// same way.
pub proof fn lemma_lines_error_sticks(items: Seq<ExprView>, k: int)
    requires
        0 <= k <= items.len(),
        parse_lines(items.take(k)) is Err,
    ensures
        parse_lines(items) == parse_lines(items.take(k)),
    decreases items.len(),
{
    if k == items.len() {
        assert(items.take(k) =~= items);
    } else {
        assert(items.drop_last().take(k) =~= items.take(k));
        lemma_lines_error_sticks(items.drop_last(), k);
    }
}

/// Once a prefix of the texts is refused, the whole list is refused the
/// same way.
pub proof fn lemma_texts_error_sticks(items: Seq<ExprView>, k: int)
    requires
        0 <= k <= items.len(),
        parse_texts(items.take(k)) is Err,
    ensures
        parse_texts(items) == parse_texts(items.take(k)),
    decreases items.len(),
{
    if k == items.len() {
        assert(items.take(k) =~= items);
    } else {
        assert(items.drop_last().take(k) =~= items.take(k));
        lemma_texts_error_sticks(items.drop_last(), k);
    }
}

fn texts_of(items: &[Expr]) -> (r: Result<Vec<String>>)
    ensures
        match parse_texts(expr_views(items@)) {
            Ok(ts) => r matches Ok(v) && text_views(v@) == ts,
            Err(m) => r matches Err(Error::Eval(x)) && x@ == m,
        },
{
    let ghost iv = expr_views(items@);
    let mut out: Vec<String> = Vec::new();
    let mut i: usize = 0;
    assert(iv.take(0) =~= Seq::<ExprView>::empty());
    assert(text_views(out@) =~= Seq::<Seq<char>>::empty());
    while i < items.len()
        invariant
            iv == expr_views(items@),
            i <= items@.len(),
            parse_texts(iv.take(i as int)) == Ok::<Seq<Seq<char>>, Seq<char>>(text_views(out@)),
        decreases items@.len() - i,
    {
        let ghost t = iv.take(i + 1);
        assert(t.drop_last() =~= iv.take(i as int));
        assert(t.last() == items@[i as int]@);
        match text_value(&items[i]) {
            Ok(s) => {
                let ghost before = out@;
                out.push(s);
                assert(text_views(out@) =~= text_views(before).push(s@));
            },
            Err(err) => {
                proof {
                    lemma_texts_error_sticks(iv, i + 1);
                }
                return Err(err);
            },
        }
        i = i + 1;
    }
    assert(iv.take(items@.len() as int) =~= iv);
    Ok(out)
}

fn list_items_of<'a>(entries: &'a [(Expr, Expr)], name: &str) -> (r: Result<&'a Vec<Expr>>)
    ensures
        match list_items(entry_views(entries@), name@) {
            Ok(items) => r matches Ok(v) && expr_views(v@) == items,
            Err(m) => r matches Err(Error::Eval(x)) && x@ == m,
        },
{
    match first_named_of(entries, name) {
        None => Err(missing_error(name)),
        Some(Expr::List(items)) => {
            proof {
                crate::expr::lemma_list_view(*items);
            }
            Ok(items)
        },
        Some(_) => Err(list_error(name)),
    }
}

/// Parses a parts request: a map whose `op` is `catalog/get` with a `path`
/// list, or `order/place` (also spelled `auto/order`) with a `supplier`
/// and a `lines` list.
pub fn parse_parts_request(expr: &Expr) -> (r: Result<PartsRequest>)
    ensures
        match parse_parts(expr@) {
            Ok(v) => r matches Ok(x) && x@ == v,
            Err(m) => r matches Err(Error::Eval(x)) && x@ == m,
        },
{
    let entries = match expr {
        Expr::Dict(entries) => {
            proof {
                crate::expr::lemma_dict_view(*entries);
            }
            entries.as_slice()
        },
        _ => {
            return Err(parts_error("auto parts request must be a map"));
        },
    };
    let op = match required_text_of(entries, "op") {
        Ok(t) => t,
        Err(err) => {
            return Err(err);
        },
    };
    if str_eq(op.as_str(), "catalog/get") {
        let items = match list_items_of(entries, "path") {
            Ok(items) => items,
            Err(err) => {
                return Err(err);
            },
        };
        match texts_of(items.as_slice()) {
            Ok(path) => Ok(PartsRequest::CatalogGet { path }),
            Err(err) => Err(err),
        }
    } else if str_eq(op.as_str(), "order/place") || str_eq(op.as_str(), "auto/order") {
        let label = match required_text_of(entries, "supplier") {
            Ok(t) => t,
            Err(err) => {
                return Err(err);
            },
        };
        let supplier = match Supplier::parse(label.as_str()) {
            Some(s) => s,
            None => {
                return Err(parts_error("unknown auto parts supplier"));
            },
        };
        let items = match list_items_of(entries, "lines") {
            Ok(items) => items,
            Err(err) => {
                return Err(err);
            },
        };
        match lines_of(items.as_slice()) {
            Ok(lines) => Ok(PartsRequest::Order { supplier, lines }),
            Err(err) => Err(err),
        }
    } else {
        let mut text = chars_of("unknown auto parts operation ");
        push_str(&mut text, op.as_str());
        Err(Error::Eval(string_of(text.as_slice())))
    }
}

/// The map a catalog lookup request is written as.
pub open spec fn catalog_get_view(path: Seq<Seq<char>>) -> ExprView {
    ExprView::Dict(
        seq![
            (key_view("op"@), ExprView::Text("catalog/get"@)),
            (key_view("path"@), ExprView::List(path.map_values(|t: Seq<char>| ExprView::Text(t)))),
        ],
    )
}

/// The map an order line is written as: SKU, description, quantity as a
/// `core/Number`, then the OEM number when there is one.
pub open spec fn line_entry_view(l: PartLineView) -> ExprView {
    let base = seq![
        (key_view("sku"@), ExprView::Text(l.0)),
        (key_view("description"@), ExprView::Text(l.2)),
        (key_view("qty"@), ExprView::Number((Some("core"@), "Number"@), decimal(l.3 as nat))),
    ];
    ExprView::Dict(
        match l.1 {
            Some(o) => base.push((key_view("oem"@), ExprView::Text(o))),
            None => base,
        },
    )
}

/// The map an order request is written as.
pub open spec fn order_view(supplier: Supplier, lines: Seq<PartLineView>) -> ExprView {
    ExprView::Dict(
        seq![
            (key_view("op"@), ExprView::Text("order/place"@)),
            (key_view("supplier"@), ExprView::Text(supplier_label(supplier))),
            (key_view("lines"@), ExprView::List(lines.map_values(|l: PartLineView| line_entry_view(l)))),
        ],
    )
}

/// Builds a catalog lookup request expression.
pub fn parts_catalog_get_expr(path: &[&str]) -> (r: Expr)
    ensures
        r@ == catalog_get_view(str_views(path@)),
{
    let ghost want = str_views(path@).map_values(|t: Seq<char>| ExprView::Text(t));
    let mut items: Vec<Expr> = Vec::new();
    let mut i: usize = 0;
    while i < path.len()
        invariant
            i <= path@.len(),
            want == str_views(path@).map_values(|t: Seq<char>| ExprView::Text(t)),
            expr_views(items@) == want.take(i as int),
        decreases path@.len() - i,
    {
        let ghost before = items@;
        items.push(Expr::String(path[i].to_owned()));
        assert(expr_views(items@) =~= expr_views(before).push(ExprView::Text(path@[i as int]@)));
        assert(want.take(i + 1) =~= want.take(i as int).push(want[i as int]));
        i = i + 1;
    }
    assert(want.take(path@.len() as int) =~= want);
    let (op_key, op_value) = string_field("op", "catalog/get");
    let list = list_expr(items);
    let entries = vec![(op_key, op_value), (key("path"), list)];
    let r = dict_expr(entries);
    assert(entry_views(entries@) =~= seq![
        (key_view("op"@), ExprView::Text("catalog/get"@)),
        (key_view("path"@), ExprView::List(want)),
    ]);
    r
}

fn part_line_map(line: &PartLine) -> (r: Expr)
    ensures
        r@ == line_entry_view(line@),
{
    let (sku_key, sku_value) = string_field("sku", line.sku.as_str());
    let (d_key, d_value) = string_field("description", line.description.as_str());
    let qty = number_expr("core", "Number", line.qty as u64);
    let mut fields = vec![(sku_key, sku_value), (d_key, d_value), (key("qty"), qty)];
    let ghost base = entry_views(fields@);
    assert(base =~= seq![
        (key_view("sku"@), ExprView::Text(line.sku@)),
        (key_view("description"@), ExprView::Text(line.description@)),
        (key_view("qty"@), ExprView::Number((Some("core"@), "Number"@), decimal(line.qty as nat))),
    ]);
    match &line.oem {
        Some(oem) => {
            let (o_key, o_value) = string_field("oem", oem.as_str());
            fields.push((o_key, o_value));
            assert(entry_views(fields@) =~= base.push((key_view("oem"@), ExprView::Text(oem@))));
        },
        None => {},
    }
    dict_expr(fields)
}

/// Builds an order request expression.
pub fn auto_order_expr(supplier: Supplier, lines: &[PartLine]) -> (r: Expr)
    ensures
        r@ == order_view(supplier, line_views(lines@)),
{
    let ghost want = line_views(lines@).map_values(|l: PartLineView| line_entry_view(l));
    let mut items: Vec<Expr> = Vec::new();
    let mut i: usize = 0;
    while i < lines.len()
        invariant
            i <= lines@.len(),
            want == line_views(lines@).map_values(|l: PartLineView| line_entry_view(l)),
            expr_views(items@) == want.take(i as int),
        decreases lines@.len() - i,
    {
        let ghost before = items@;
        let m = part_line_map(&lines[i]);
        items.push(m);
        assert(expr_views(items@) =~= expr_views(before).push(line_entry_view(lines@[i as int]@)));
        assert(want.take(i + 1) =~= want.take(i as int).push(want[i as int]));
        i = i + 1;
    }
    assert(want.take(lines@.len() as int) =~= want);
    let (op_key, op_value) = string_field("op", "order/place");
    let (s_key, s_value) = string_field("supplier", supplier.as_str());
    let list = list_expr(items);
    let entries = vec![(op_key, op_value), (s_key, s_value), (key("lines"), list)];
    let r = dict_expr(entries);
    assert(entry_views(entries@) =~= seq![
        (key_view("op"@), ExprView::Text("order/place"@)),
        (key_view("supplier"@), ExprView::Text(supplier_label(supplier))),
        (key_view("lines"@), ExprView::List(want)),
    ]);
    r
}

/// A key that does not start with a colon reads back as itself.
pub proof fn lemma_plain_key(name: Seq<char>)
    requires
        name.len() > 0,
        name[0] != ':',
    ensures
        key_text(key_view(name)) == Some(name),
{
    assert(strip_leading(name, ':') == name);
}

/// A supplier's label parses back to that supplier.
pub proof fn lemma_supplier_label_parses(supplier: Supplier)
    ensures
        parse_supplier(supplier_label(supplier)) == Some(supplier),
{
    let label = supplier_label(supplier);
    match supplier {
        Supplier::MekonomenProModeled => {
            reveal_strlit("mekonomen-pro-modeled");
            reveal_strlit("mekonomen-pro");
            reveal_strlit("modeled");
            assert(label.len() == 21);
            crate::parts::lemma_dash_key_fixed(label);
        },
        Supplier::MekonomenProLive => {
            reveal_strlit("mekonomen-pro-live");
            reveal_strlit("mekonomen-pro");
            reveal_strlit("mekonomen-pro-modeled");
            reveal_strlit("modeled");
            assert(label.len() == 18);
            assert(label != "mekonomen-pro"@);
            assert(label != "modeled"@);
            assert(label[14] != "mekonomen-pro-modeled"@[14]);
            crate::parts::lemma_dash_key_fixed(label);
        },
    }
}

/// Texts written as strings read back as the same texts.
proof fn lemma_texts_round_trip(ts: Seq<Seq<char>>)
    ensures
        parse_texts(ts.map_values(|t: Seq<char>| ExprView::Text(t))) == Ok::<Seq<Seq<char>>, Seq<char>>(ts),
    decreases ts.len(),
{
    let items = ts.map_values(|t: Seq<char>| ExprView::Text(t));
    if ts.len() > 0 {
        assert(items.drop_last() =~= ts.drop_last().map_values(|t: Seq<char>| ExprView::Text(t)));
        lemma_texts_round_trip(ts.drop_last());
        assert(ts.drop_last().push(ts.last()) =~= ts);
    } else {
        assert(ts =~= Seq::<Seq<char>>::empty());
    }
}

/// A written order line reads back as the same line.
pub proof fn lemma_line_round_trip(l: PartLineView)
    ensures
        parse_line(line_entry_view(l)) == Ok::<PartLineView, Seq<char>>(l),
{
    reveal_strlit("sku");
    reveal_strlit("description");
    reveal_strlit("qty");
    reveal_strlit("oem");
    lemma_plain_key("sku"@);
    lemma_plain_key("description"@);
    lemma_plain_key("qty"@);
    lemma_plain_key("oem"@);
    assert("sku"@ != "description"@);
    assert("sku"@[0] != "qty"@[0]);
    assert("sku"@[0] != "oem"@[0]);
    assert("qty"@[0] != "oem"@[0]);
    assert("description"@ != "qty"@);
    assert("description"@ != "oem"@);
    crate::numtext::lemma_parse_decimal(l.3 as nat, u32::MAX as int);
    reveal_with_fuel(first_named, 6);
    if let ExprView::Dict(es) = line_entry_view(l) {
        assert(first_named(es, "sku"@) == Some(ExprView::Text(l.0)));
        assert(first_named(es, "description"@) == Some(ExprView::Text(l.2)));
        assert(qty_value(es) == Ok::<u32, Seq<char>>(l.3));
        assert(optional_text(es, "oem"@) == l.1);
    }
}

/// Written order lines read back as the same lines.
proof fn lemma_lines_round_trip(ls: Seq<PartLineView>)
    ensures
        parse_lines(ls.map_values(|l: PartLineView| line_entry_view(l))) == Ok::<Seq<PartLineView>, Seq<char>>(ls),
    decreases ls.len(),
{
    let items = ls.map_values(|l: PartLineView| line_entry_view(l));
    if ls.len() > 0 {
        assert(items.drop_last() =~= ls.drop_last().map_values(|l: PartLineView| line_entry_view(l)));
        lemma_lines_round_trip(ls.drop_last());
        lemma_line_round_trip(ls.last());
        assert(ls.drop_last().push(ls.last()) =~= ls);
    } else {
        assert(ls =~= Seq::<PartLineView>::empty());
    }
}

/// A catalog lookup request built for a path reads back as a lookup of
/// that path.
pub proof fn lemma_catalog_get_round_trip(path: Seq<Seq<char>>)
    ensures
        parse_parts(catalog_get_view(path)) == Ok::<PartsRequestView, Seq<char>>(PartsRequestView::CatalogGet(path)),
{
    reveal_strlit("op");
    reveal_strlit("path");
    lemma_plain_key("op"@);
    lemma_plain_key("path"@);
    assert("op"@ != "path"@);
    lemma_texts_round_trip(path);
    reveal_with_fuel(first_named, 3);
}

/// An order request built for a supplier and lines reads back as an order
/// of those lines from that supplier.
pub proof fn lemma_order_round_trip(supplier: Supplier, lines: Seq<PartLineView>)
    ensures
        parse_parts(order_view(supplier, lines)) == Ok::<PartsRequestView, Seq<char>>(PartsRequestView::Order(supplier, lines)),
{
    reveal_strlit("op");
    reveal_strlit("supplier");
    reveal_strlit("lines");
    reveal_strlit("order/place");
    reveal_strlit("catalog/get");
    lemma_plain_key("op"@);
    lemma_plain_key("supplier"@);
    lemma_plain_key("lines"@);
    assert("op"@ != "supplier"@);
    assert("op"@ != "lines"@);
    assert("supplier"@ != "lines"@);
    assert("order/place"@[0] != "catalog/get"@[0]);
    lemma_supplier_label_parses(supplier);
    lemma_lines_round_trip(lines);
    reveal_with_fuel(first_named, 4);
}

/// The arguments an order carries to the supplier: the supplier label and
/// the lines in their read-construct form.
pub open spec fn order_args_view(supplier: Supplier, lines: Seq<PartLineView>) -> ExprView {
    ExprView::Dict(
        seq![
            (key_view("supplier"@), ExprView::Text(supplier_label(supplier))),
            (key_view("lines"@), ExprView::List(lines.map_values(|l: PartLineView| crate::citizen::part_line_form(l)))),
        ],
    )
}

/// Builds the arguments an order carries to the supplier.
pub fn order_args_expr(supplier: Supplier, lines: &[PartLine]) -> (r: Expr)
    ensures
        r@ == order_args_view(supplier, line_views(lines@)),
{
    let ghost want = line_views(lines@).map_values(|l: PartLineView| crate::citizen::part_line_form(l));
    let mut items: Vec<Expr> = Vec::new();
    let mut i: usize = 0;
    while i < lines.len()
        invariant
            i <= lines@.len(),
            want == line_views(lines@).map_values(|l: PartLineView| crate::citizen::part_line_form(l)),
            expr_views(items@) == want.take(i as int),
        decreases lines@.len() - i,
    {
        let ghost before = items@;
        items.push(lines[i].to_expr());
        assert(expr_views(items@) =~= expr_views(before).push(crate::citizen::part_line_form(lines@[i as int]@)));
        assert(want.take(i + 1) =~= want.take(i as int).push(want[i as int]));
        i = i + 1;
    }
    assert(want.take(lines@.len() as int) =~= want);
    let (k1, v1) = string_field("supplier", supplier.as_str());
    let entries = vec![(k1, v1), (key("lines"), list_expr(items))];
    assert(entry_views(entries@) =~= seq![
        (key_view("supplier"@), ExprView::Text(supplier_label(supplier))),
        (key_view("lines"@), ExprView::List(want)),
    ]);
    dict_expr(entries)
}

/// The reply of the supplier once the effect gate lets an order through:
/// the site, operation and supplier, with the accepted status.
pub open spec fn supplier_reply_view(site: Seq<char>, operation: Seq<char>, supplier: Supplier, status: crate::parts::OrderStatusView) -> ExprView {
    ExprView::Dict(
        seq![
            (key_view("site"@), ExprView::Text(site)),
            (key_view("operation"@), ExprView::Text(operation)),
            (key_view("supplier"@), ExprView::Text(supplier_label(supplier))),
            (key_view("status"@), crate::citizen::order_status_form(status)),
        ],
    )
}

/// Answers the supplier call of an order for the request's site and
/// operation: the status the supplier gives, and the reply that carries it.
pub fn supplier_reply(site: &str, operation: &str, supplier: Supplier, lines: &[PartLine]) -> (r: Result<(crate::parts::OrderStatus, Expr)>)
    ensures
        supplier == Supplier::MekonomenProLive ==> (r matches Err(Error::Eval(msg)) && msg@ == crate::parts::live_order_refusal()),
        supplier == Supplier::MekonomenProModeled ==> (r matches Ok((st, e)) && st@ == crate::parts::accepted_status(
            "SIM-ORDER-"@ + crate::parts::order_suffix(line_views(lines@)),
            supplier,
            lines@.len() as u32,
        ) && e@ == supplier_reply_view(site@, operation@, supplier, st@)),
{
    let status = match crate::parts::supplier_answer(supplier, lines) {
        Ok(st) => st,
        Err(e) => {
            return Err(e);
        },
    };
    let (k1, v1) = string_field("site", site);
    let (k2, v2) = string_field("operation", operation);
    let (k3, v3) = string_field("supplier", supplier.as_str());
    let entries = vec![(k1, v1), (k2, v2), (k3, v3), (key("status"), status.to_expr())];
    assert(entry_views(entries@) =~= seq![
        (key_view("site"@), ExprView::Text(site@)),
        (key_view("operation"@), ExprView::Text(operation@)),
        (key_view("supplier"@), ExprView::Text(supplier_label(supplier))),
        (key_view("status"@), crate::citizen::order_status_form(status@)),
    ]);
    let reply = dict_expr(entries);
    Ok((status, reply))
}

/// A catalog's label parses back to that catalog.
pub proof fn lemma_catalog_label_parses(catalog: crate::parts::PartsCatalog)
    ensures
        crate::parts::parse_catalog(
            match catalog {
                crate::parts::PartsCatalog::EpcModeled => "epc-modeled"@,
                crate::parts::PartsCatalog::AftermarketModeled => "aftermarket-modeled"@,
            },
        ) == Some(catalog),
{
    reveal_strlit("epc");
    reveal_strlit("epc-modeled");
    reveal_strlit("mercedes-epc");
    reveal_strlit("aftermarket");
    reveal_strlit("aftermarket-modeled");
    reveal_strlit("mekonomen");
    reveal_strlit("mekonomen-modeled");
    match catalog {
        crate::parts::PartsCatalog::EpcModeled => {
            crate::parts::lemma_dash_key_fixed("epc-modeled"@);
        },
        crate::parts::PartsCatalog::AftermarketModeled => {
            assert("aftermarket-modeled"@.len() == 19);
            crate::parts::lemma_dash_key_fixed("aftermarket-modeled"@);
        },
    }
}

} // verus!
