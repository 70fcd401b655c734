//! Citizen values written as explicit `citizen/read-construct` forms, and
//! read back: the class symbol, the version `v0`, then the constructor
//! fields in order.

use vstd::prelude::*;

use crate::diag::copy_expr;
use crate::domain::VehicleId;
use crate::expr::{Expr, ExprView, SymView, Symbol, expr_views, list_expr, qualified_text};
use crate::libs::{symbol_from_text, symbol_of_text};
use crate::numtext::{
    all_digits, decimal, decimal_string, digits_value, is_digit, parse_unsigned, parse_unsigned_chars, signed_decimal,
    signed_decimal_string,
};
use crate::order::{
    EvidenceView, LedgerInvoiceEvidence, LedgerInvoiceExport, LedgerInvoicePosting, PostingView, evidence_views,
    opt_text, posting_views,
};
use crate::parts::{OrderStatus, OrderStatusView, PartLine, PartLineView, Supplier, line_views, parse_supplier};
use crate::read_construct::{read_construct_view, text_read_construct_expr};
use crate::text::{chars_of, str_eq};

verus! {

/// Why a field could not be read back.
#[derive(Debug)]
pub enum FieldProblem {
    /// The value is not a read-construct extension.
    NotReadConstruct,
    /// The extension carries another tag.
    WrongTag(Symbol),
    /// The payload is not a vector.
    NotVector,
    /// The payload holds another number of constructor fields.
    Arity {
        /// Fields the class takes.
        expected: usize,
        /// Fields found.
        found: usize,
    },
    /// The payload names another class.
    WrongClass {
        /// Class expected.
        expected: String,
        /// Class found.
        found: Symbol,
    },
    /// The payload's head is not a symbol.
    NotClassSymbol(Expr),
    /// The version is not `v0`.
    NotVersion(Expr),
    /// A string or symbol was expected.
    NotText(Expr),
    /// A boolean was expected.
    NotBool(Expr),
    /// A number was expected.
    NotNumber(Expr),
    /// The number's text is not an `i64`.
    InvalidInteger(String),
    /// The integer does not fit a `u32`.
    OutOfRange(i64),
    /// A list was expected.
    NotList(Expr),
    /// The supplier label names no supplier.
    UnknownSupplier(String),
}

/// What a field problem says.
pub enum ProblemView {
    /// Not a read-construct extension.
    NotReadConstruct,
    /// Another tag.
    WrongTag(SymView),
    /// Payload not a vector.
    NotVector,
    /// Expected and found field counts.
    Arity(nat, nat),
    /// Expected class text and found class.
    WrongClass(Seq<char>, SymView),
    /// Head not a symbol.
    NotClassSymbol(ExprView),
    /// Version not `v0`.
    NotVersion(ExprView),
    /// Not a string or symbol.
    NotText(ExprView),
    /// Not a boolean.
    NotBool(ExprView),
    /// Not a number.
    NotNumber(ExprView),
    /// Number text that is not an `i64`.
    InvalidInteger(Seq<char>),
    /// Integer out of `u32` range.
    OutOfRange(int),
    /// Not a list.
    NotList(ExprView),
    /// Unknown supplier label.
    UnknownSupplier(Seq<char>),
}

impl View for FieldProblem {
    type V = ProblemView;

    open spec fn view(&self) -> ProblemView {
        match self {
            FieldProblem::NotReadConstruct => ProblemView::NotReadConstruct,
            FieldProblem::WrongTag(s) => ProblemView::WrongTag(s@),
            FieldProblem::NotVector => ProblemView::NotVector,
            FieldProblem::Arity { expected, found } => ProblemView::Arity(*expected as nat, *found as nat),
            FieldProblem::WrongClass { expected, found } => ProblemView::WrongClass(expected@, found@),
            FieldProblem::NotClassSymbol(e) => ProblemView::NotClassSymbol(e@),
            FieldProblem::NotVersion(e) => ProblemView::NotVersion(e@),
            FieldProblem::NotText(e) => ProblemView::NotText(e@),
            FieldProblem::NotBool(e) => ProblemView::NotBool(e@),
            FieldProblem::NotNumber(e) => ProblemView::NotNumber(e@),
            FieldProblem::InvalidInteger(t) => ProblemView::InvalidInteger(t@),
            FieldProblem::OutOfRange(v) => ProblemView::OutOfRange(*v as int),
            FieldProblem::NotList(e) => ProblemView::NotList(e@),
            FieldProblem::UnknownSupplier(t) => ProblemView::UnknownSupplier(t@),
        }
    }
}

/// A field that could not be read back, and why.
#[derive(Debug)]
pub struct FieldError {
    /// The field being read.
    pub field: String,
    /// What was wrong with it.
    pub problem: FieldProblem,
}

impl View for FieldError {
    type V = (Seq<char>, ProblemView);

    open spec fn view(&self) -> (Seq<char>, ProblemView) {
        (self.field@, self.problem@)
    }
}

pub(crate) fn field_error(field: &str, problem: FieldProblem) -> (e: FieldError)
    ensures
        e@ == (field@, problem@),
{
    FieldError { field: field.to_owned(), problem }
}

/// The version marker every constructor form carries.
pub open spec fn v0_view() -> ExprView {
    ExprView::Sym((None, "v0"@))
}

/// The read-construct tag.
pub open spec fn read_construct_tag() -> SymView {
    (Some("citizen"@), "read-construct"@)
}

/// Fields beyond the first two, never negative.
pub open spec fn found_fields(n: nat) -> nat {
    if n < 2 {
        0
    } else {
        (n - 2) as nat
    }
}

/// The constructor fields of a read-construct form of `class` with
/// `arity` fields, or why there are none.
pub open spec fn construct_args(e: ExprView, class: Seq<char>, arity: nat) -> core::result::Result<Seq<ExprView>, ProblemView> {
    match e {
        ExprView::Extension(tag, payload) => if tag != read_construct_tag() {
            Err(ProblemView::WrongTag(tag))
        } else {
            match *payload {
                ExprView::Vector(items) => if items.len() != arity + 2 {
                    Err(ProblemView::Arity(arity, found_fields(items.len())))
                } else {
                    match items[0] {
                        ExprView::Sym(s) => if s != symbol_of_text(class) {
                            Err(ProblemView::WrongClass(class, s))
                        } else if items[1] != v0_view() {
                            Err(ProblemView::NotVersion(items[1]))
                        } else {
                            Ok(items.subrange(2, items.len() as int))
                        },
                        other => Err(ProblemView::NotClassSymbol(other)),
                    }
                },
                _ => Err(ProblemView::NotVector),
            }
        },
        _ => Err(ProblemView::NotReadConstruct),
    }
}

/// Reads the constructor fields of a read-construct form.
pub fn read_construct_args<'a>(expr: &'a Expr, class: &str, field: &str, arity: usize) -> (r: core::result::Result<&'a [Expr], FieldError>)
    ensures
        match construct_args(expr@, class@, arity as nat) {
            Ok(args) => r matches Ok(a) && expr_views(a@) == args,
            Err(p) => r matches Err(e) && e@ == (field@, p),
        },
        r matches Ok(a) ==> a@.len() == arity,
{
    let (tag, payload) = match expr {
        Expr::Extension { tag, payload } => (tag, payload),
        _ => {
            return Err(field_error(field, FieldProblem::NotReadConstruct));
        },
    };
    let want = Symbol::qualified("citizen", "read-construct");
    if !tag.same(&want) {
        return Err(field_error(field, FieldProblem::WrongTag(tag.duplicate())));
    }
    let items = match &**payload {
        Expr::Vector(items) => {
            proof {
                crate::expr::lemma_vector_view(*items);
            }
            items
        },
        _ => {
            return Err(field_error(field, FieldProblem::NotVector));
        },
    };
    if items.len() < 2 || items.len() - 2 != arity {
        let found: usize = if items.len() < 2 {
            0
        } else {
            items.len() - 2
        };
        return Err(field_error(field, FieldProblem::Arity { expected: arity, found }));
    }
    let class_symbol = symbol_from_text(class);
    match &items[0] {
        Expr::Symbol(s) => {
            if !s.same(&class_symbol) {
                return Err(field_error(field, FieldProblem::WrongClass { expected: class.to_owned(), found: s.duplicate() }));
            }
        },
        other => {
            return Err(field_error(field, FieldProblem::NotClassSymbol(copy_expr(other))));
        },
    }
    let is_v0 = match &items[1] {
        Expr::Symbol(v) => v.namespace.is_none() && str_eq(v.name.as_str(), "v0"),
        _ => false,
    };
    if !is_v0 {
        return Err(field_error(field, FieldProblem::NotVersion(copy_expr(&items[1]))));
    }
    let rest = vstd::slice::slice_subrange(items.as_slice(), 2, items.len());
    assert(expr_views(rest@) =~= expr_views(items@).subrange(2, items@.len() as int));
    Ok(rest)
}

/// A string or symbol field.
pub open spec fn text_arg(e: ExprView) -> core::result::Result<Seq<char>, ProblemView> {
    match e {
        ExprView::Text(t) => Ok(t),
        ExprView::Sym(s) => Ok(qualified_text(s)),
        other => Err(ProblemView::NotText(other)),
    }
}

/// An optional string field: `nil` for none.
pub open spec fn opt_text_arg(e: ExprView) -> core::result::Result<Option<Seq<char>>, ProblemView> {
    match e {
        ExprView::Nil => Ok(None),
        other => match text_arg(other) {
            Ok(t) => Ok(Some(t)),
            Err(p) => Err(p),
        },
    }
}

/// A boolean field.
pub open spec fn bool_arg(e: ExprView) -> core::result::Result<bool, ProblemView> {
    match e {
        ExprView::Bool(b) => Ok(b),
        other => Err(ProblemView::NotBool(other)),
    }
}

/// What `str::parse::<i64>` reads from `s`: an optional sign, then one or
/// more decimal digits whose value fits.
pub open spec fn parse_signed(s: Seq<char>) -> Option<int> {
    if s.len() > 0 && s[0] == '-' {
        let b = s.drop_first();
        if b.len() > 0 && all_digits(b) && digits_value(b) <= 9223372036854775808 {
            Some(-digits_value(b))
        } else {
            None
        }
    } else {
        parse_unsigned(s, i64::MAX as int)
    }
}

/// An integer field.
pub open spec fn i64_arg(e: ExprView) -> core::result::Result<int, ProblemView> {
    match e {
        ExprView::Number(_, t) => match parse_signed(t) {
            Some(v) => Ok(v),
            None => Err(ProblemView::InvalidInteger(t)),
        },
        other => Err(ProblemView::NotNumber(other)),
    }
}

/// An integer field that must fit a `u32`.
pub open spec fn u32_arg(e: ExprView) -> core::result::Result<int, ProblemView> {
    match i64_arg(e) {
        Err(p) => Err(p),
        Ok(v) => if 0 <= v <= u32::MAX {
            Ok(v)
        } else {
            Err(ProblemView::OutOfRange(v))
        },
    }
}

/// What `parse_signed` reads lies in the `i64` range.
pub proof fn lemma_parse_signed_bounds(s: Seq<char>)
    ensures
        parse_signed(s) matches Some(v) ==> i64::MIN <= v <= i64::MAX,
{
    crate::numtext::lemma_parse_unsigned_bounds(s, i64::MAX as int);
    if s.len() > 0 && s[0] == '-' {
        let b = s.drop_first();
        if b.len() > 0 && all_digits(b) {
            assert(!(b[0] == '+')) by {
                assert(is_digit(b[0]));
            }
            crate::numtext::lemma_parse_unsigned_bounds(b, 9223372036854775808);
        }
    }
}

/// Reads a signed decimal number as `str::parse::<i64>` does.
pub fn parse_i64_chars(s: &[char]) -> (r: Option<i64>)
    ensures
        match parse_signed(s@) {
            Some(v) => r == Some(v as i64),
            None => r is None,
        },
{
    proof {
        lemma_parse_signed_bounds(s@);
    }
    if s.len() > 0 && s[0] == '-' {
        let b = vstd::slice::slice_subrange(s, 1, s.len());
        assert(b@ =~= s@.drop_first());
        if b.len() > 0 && b[0] == '+' {
            assert(!is_digit(b@[0]));
            return None;
        }
        proof {
            crate::numtext::lemma_parse_unsigned_bounds(b@, 9223372036854775808);
            assert(parse_unsigned(b@, 9223372036854775808) == (if b@.len() > 0 && all_digits(b@) && digits_value(b@)
                <= 9223372036854775808 {
                Some(digits_value(b@))
            } else {
                None
            }));
        }
        match parse_unsigned_chars(b, 9223372036854775808u64) {
            Some(v) => {
                if v == 9223372036854775808u64 {
                    Some(i64::MIN)
                } else {
                    let m = v as i64;
                    Some(-m)
                }
            },
            None => None,
        }
    } else {
        proof {
            crate::numtext::lemma_parse_unsigned_bounds(s@, 9223372036854775807);
        }
        match parse_unsigned_chars(s, 9223372036854775807u64) {
            Some(v) => Some(v as i64),
            None => None,
        }
    }
}

pub(crate) fn text_arg_of(e: &Expr, field: &str) -> (r: core::result::Result<String, FieldError>)
    ensures
        match text_arg(e@) {
            Ok(t) => r matches Ok(s) && s@ == t,
            Err(p) => r matches Err(x) && x@ == (field@, p),
        },
{
    match e {
        Expr::String(v) => Ok(v.clone()),
        Expr::Symbol(s) => Ok(s.as_qualified_str()),
        other => Err(field_error(field, FieldProblem::NotText(copy_expr(other)))),
    }
}

fn opt_text_arg_of(e: &Expr, field: &str) -> (r: core::result::Result<Option<String>, FieldError>)
    ensures
        match opt_text_arg(e@) {
            Ok(t) => r matches Ok(s) && opt_text(s) == t,
            Err(p) => r matches Err(x) && x@ == (field@, p),
        },
{
    match e {
        Expr::Nil => Ok(None),
        other => match text_arg_of(other, field) {
            Ok(t) => Ok(Some(t)),
            Err(x) => Err(x),
        },
    }
}

pub(crate) fn bool_arg_of(e: &Expr, field: &str) -> (r: core::result::Result<bool, FieldError>)
    ensures
        match bool_arg(e@) {
            Ok(b) => r == Ok::<bool, FieldError>(b),
            Err(p) => r matches Err(x) && x@ == (field@, p),
        },
{
    match e {
        Expr::Bool(b) => Ok(*b),
        other => Err(field_error(field, FieldProblem::NotBool(copy_expr(other)))),
    }
}

fn i64_arg_of(e: &Expr, field: &str) -> (r: core::result::Result<i64, FieldError>)
    ensures
        match i64_arg(e@) {
            Ok(v) => r matches Ok(x) && x as int == v,
            Err(p) => r matches Err(x) && x@ == (field@, p),
        },
{
    match e {
        Expr::Number(n) => {
            let cs = chars_of(n.canonical.as_str());
            proof {
                lemma_parse_signed_bounds(cs@);
            }
            match parse_i64_chars(cs.as_slice()) {
                Some(v) => Ok(v),
                None => Err(field_error(field, FieldProblem::InvalidInteger(n.canonical.clone()))),
            }
        },
        other => Err(field_error(field, FieldProblem::NotNumber(copy_expr(other)))),
    }
}

/// Reads an integer field that must fit a `u32`.
pub fn u32_field(e: &Expr, field: &str) -> (r: core::result::Result<u32, FieldError>)
    ensures
        match u32_arg(e@) {
            Ok(v) => r matches Ok(x) && x as int == v,
            Err(p) => r matches Err(x) && x@ == (field@, p),
        },
{
    match i64_arg_of(e, field) {
        Err(x) => Err(x),
        Ok(v) => {
            if 0 <= v && v <= 4294967295i64 {
                Ok(v as u32)
            } else {
                Err(field_error(field, FieldProblem::OutOfRange(v)))
            }
        },
    }
}

/// The form an optional string is written as: the string, or `nil`.
pub open spec fn opt_expr_view(o: Option<Seq<char>>) -> ExprView {
    match o {
        Some(t) => ExprView::Text(t),
        None => ExprView::Nil,
    }
}

fn opt_expr(o: &Option<String>) -> (r: Expr)
    ensures
        r@ == opt_expr_view(opt_text(*o)),
{
    match o {
        Some(t) => Expr::String(t.clone()),
        None => Expr::Nil,
    }
}

/// A `core/Number` with the given text.
pub open spec fn core_number(t: Seq<char>) -> ExprView {
    ExprView::Number((Some("core"@), "Number"@), t)
}

fn core_number_u32(v: u32) -> (r: Expr)
    ensures
        r@ == core_number(decimal(v as nat)),
{
    Expr::Number(crate::expr::NumberLiteral { domain: Symbol::qualified("core", "Number"), canonical: decimal_string(v as u64) })
}

fn core_number_i64(v: i64) -> (r: Expr)
    ensures
        r@ == core_number(signed_decimal(v as int)),
{
    Expr::Number(crate::expr::NumberLiteral { domain: Symbol::qualified("core", "Number"), canonical: signed_decimal_string(v) })
}

/// The read-construct form of a part line.
pub open spec fn part_line_form(l: PartLineView) -> ExprView {
    read_construct_view(
        symbol_of_text("auto/PartLine"@),
        seq![v0_view(), ExprView::Text(l.0), opt_expr_view(l.1), ExprView::Text(l.2), core_number(decimal(l.3 as nat))],
    )
}

impl PartLine {
    /// Writes the line as explicit read-construct data.
    pub fn to_expr(&self) -> (r: Expr)
        ensures
            r@ == part_line_form(self@),
    {
        let args = vec![
            Expr::Symbol(Symbol::new("v0")),
            Expr::String(self.sku.clone()),
            opt_expr(&self.oem),
            Expr::String(self.description.clone()),
            core_number_u32(self.qty),
        ];
        assert(expr_views(args@) =~= seq![
            v0_view(),
            ExprView::Text(self.sku@),
            opt_expr_view(opt_text(self.oem)),
            ExprView::Text(self.description@),
            core_number(decimal(self.qty as nat)),
        ]);
        text_read_construct_expr("auto/PartLine", args)
    }
}

/// The read-construct form of an order status.
pub open spec fn order_status_form(s: OrderStatusView) -> ExprView {
    read_construct_view(
        symbol_of_text("auto/OrderStatus"@),
        seq![
            v0_view(),
            ExprView::Text(s.0),
            ExprView::Text(s.1),
            ExprView::Bool(s.2),
            ExprView::Bool(s.3),
            core_number(decimal(s.4 as nat)),
            ExprView::Text(s.5),
        ],
    )
}

impl OrderStatus {
    /// Writes the status as explicit read-construct data.
    pub fn to_expr(&self) -> (r: Expr)
        ensures
            r@ == order_status_form(self@),
    {
        let args = vec![
            Expr::Symbol(Symbol::new("v0")),
            Expr::String(self.id.clone()),
            Expr::String(self.supplier.clone()),
            Expr::Bool(self.accepted),
            Expr::Bool(self.reversible),
            core_number_u32(self.line_count),
            Expr::String(self.ledger_ref.clone()),
        ];
        assert(expr_views(args@) =~= seq![
            v0_view(),
            ExprView::Text(self.id@),
            ExprView::Text(self.supplier@),
            ExprView::Bool(self.accepted),
            ExprView::Bool(self.reversible),
            core_number(decimal(self.line_count as nat)),
            ExprView::Text(self.ledger_ref@),
        ]);
        text_read_construct_expr("auto/OrderStatus", args)
    }
}

/// The read-construct form of an evidence record.
pub open spec fn evidence_form(e: EvidenceView) -> ExprView {
    read_construct_view(
        symbol_of_text("auto/LedgerInvoiceEvidence"@),
        seq![v0_view(), ExprView::Text(e.0), ExprView::Text(e.1), opt_expr_view(e.2), opt_expr_view(e.3), opt_expr_view(e.4)],
    )
}

impl LedgerInvoiceEvidence {
    /// Writes the evidence reference as explicit read-construct data.
    pub fn to_expr(&self) -> (r: Expr)
        ensures
            r@ == evidence_form(self@),
    {
        let args = vec![
            Expr::Symbol(Symbol::new("v0")),
            Expr::String(self.backend.clone()),
            Expr::String(self.external_id.clone()),
            opt_expr(&self.version),
            opt_expr(&self.web_url),
            opt_expr(&self.immutable_hint),
        ];
        assert(expr_views(args@) =~= seq![
            v0_view(),
            ExprView::Text(self.backend@),
            ExprView::Text(self.external_id@),
            opt_expr_view(opt_text(self.version)),
            opt_expr_view(opt_text(self.web_url)),
            opt_expr_view(opt_text(self.immutable_hint)),
        ]);
        text_read_construct_expr("auto/LedgerInvoiceEvidence", args)
    }
}

/// The read-construct form of a posting.
pub open spec fn posting_form(p: PostingView) -> ExprView {
    read_construct_view(
        symbol_of_text("auto/LedgerInvoicePosting"@),
        seq![v0_view(), ExprView::Text(p.0), core_number(signed_decimal(p.1 as int)), ExprView::Text(p.2)],
    )
}

impl LedgerInvoicePosting {
    /// Writes the posting as explicit read-construct data.
    pub fn to_expr(&self) -> (r: Expr)
        ensures
            r@ == posting_form(self@),
    {
        let args = vec![
            Expr::Symbol(Symbol::new("v0")),
            Expr::String(self.account.clone()),
            core_number_i64(self.amount_minor),
            Expr::String(self.text.clone()),
        ];
        assert(expr_views(args@) =~= seq![
            v0_view(),
            ExprView::Text(self.account@),
            core_number(signed_decimal(self.amount_minor as int)),
            ExprView::Text(self.text@),
        ]);
        text_read_construct_expr("auto/LedgerInvoicePosting", args)
    }
}

/// What an invoice export says: voucher date, voucher text, currency,
/// postings and evidence.
pub type InvoiceView = (Seq<char>, Seq<char>, Seq<char>, Seq<PostingView>, Seq<EvidenceView>);

/// The view of an invoice export.
pub open spec fn invoice_view(x: LedgerInvoiceExport) -> InvoiceView {
    (x.voucher_date@, x.voucher_text@, x.currency@, posting_views(x.postings@), evidence_views(x.evidence@))
}

/// The read-construct form of an invoice export.
pub open spec fn invoice_form(x: InvoiceView) -> ExprView {
    read_construct_view(
        symbol_of_text("auto/LedgerInvoiceExport"@),
        seq![
            v0_view(),
            ExprView::Text(x.0),
            ExprView::Text(x.1),
            ExprView::Text(x.2),
            ExprView::List(x.3.map_values(|p: PostingView| posting_form(p))),
            ExprView::List(x.4.map_values(|e: EvidenceView| evidence_form(e))),
        ],
    )
}

impl LedgerInvoiceExport {
    /// Writes the export as explicit read-construct data.
    pub fn to_expr(&self) -> (r: Expr)
        ensures
            r@ == invoice_form(invoice_view(*self)),
    {
        let ghost pw = posting_views(self.postings@).map_values(|p: PostingView| posting_form(p));
        let mut postings: Vec<Expr> = Vec::new();
        let mut i: usize = 0;
        while i < self.postings.len()
            invariant
                i <= self.postings@.len(),
                pw == posting_views(self.postings@).map_values(|p: PostingView| posting_form(p)),
                expr_views(postings@) == pw.take(i as int),
            decreases self.postings@.len() - i,
        {
            let ghost before = postings@;
            postings.push(self.postings[i].to_expr());
            assert(expr_views(postings@) =~= expr_views(before).push(posting_form(self.postings@[i as int]@)));
            assert(pw.take(i + 1) =~= pw.take(i as int).push(pw[i as int]));
            i = i + 1;
        }
        assert(pw.take(self.postings@.len() as int) =~= pw);
        let ghost ew = evidence_views(self.evidence@).map_values(|e: EvidenceView| evidence_form(e));
        let mut evidence: Vec<Expr> = Vec::new();
        let mut j: usize = 0;
        while j < self.evidence.len()
            invariant
                j <= self.evidence@.len(),
                ew == evidence_views(self.evidence@).map_values(|e: EvidenceView| evidence_form(e)),
                expr_views(evidence@) == ew.take(j as int),
            decreases self.evidence@.len() - j,
        {
            let ghost before = evidence@;
            evidence.push(self.evidence[j].to_expr());
            assert(expr_views(evidence@) =~= expr_views(before).push(evidence_form(self.evidence@[j as int]@)));
            assert(ew.take(j + 1) =~= ew.take(j as int).push(ew[j as int]));
            j = j + 1;
        }
        assert(ew.take(self.evidence@.len() as int) =~= ew);
        let args = vec![
            Expr::Symbol(Symbol::new("v0")),
            Expr::String(self.voucher_date.clone()),
            Expr::String(self.voucher_text.clone()),
            Expr::String(self.currency.clone()),
            list_expr(postings),
            list_expr(evidence),
        ];
        assert(expr_views(args@) =~= seq![
            v0_view(),
            ExprView::Text(self.voucher_date@),
            ExprView::Text(self.voucher_text@),
            ExprView::Text(self.currency@),
            ExprView::List(pw),
            ExprView::List(ew),
        ]);
        text_read_construct_expr("auto/LedgerInvoiceExport", args)
    }
}

/// A part line read back from its form.
pub open spec fn read_part_line(e: ExprView) -> core::result::Result<PartLineView, ProblemView> {
    match construct_args(e, "auto/PartLine"@, 4) {
        Err(p) => Err(p),
        Ok(a) => match opt_text_arg(a[1]) {
            Err(p) => Err(p),
            Ok(oem) => match text_arg(a[0]) {
                Err(p) => Err(p),
                Ok(sku) => match text_arg(a[2]) {
                    Err(p) => Err(p),
                    Ok(description) => match u32_arg(a[3]) {
                        Err(p) => Err(p),
                        Ok(qty) => Ok((sku, oem, description, qty as u32)),
                    },
                },
            },
        },
    }
}

/// Part lines read back from a list of forms, or the first problem.
pub open spec fn read_part_line_items(items: Seq<ExprView>) -> core::result::Result<Seq<PartLineView>, ProblemView>
    decreases items.len(),
{
    if items.len() == 0 {
        Ok(Seq::empty())
    } else {
        match read_part_line_items(items.drop_last()) {
            Err(p) => Err(p),
            Ok(ls) => match read_part_line(items.last()) {
                Err(p) => Err(p),
                Ok(l) => Ok(ls.push(l)),
            },
        }
    }
}

/// Part lines read back from a list.
pub open spec fn read_part_lines(e: ExprView) -> core::result::Result<Seq<PartLineView>, ProblemView> {
    match e {
        ExprView::List(items) => read_part_line_items(items),
        other => Err(ProblemView::NotList(other)),
    }
}

/// An order status read back from its form; the supplier label must name
/// a supplier.
pub open spec fn read_order_status(e: ExprView) -> core::result::Result<OrderStatusView, ProblemView> {
    match construct_args(e, "auto/OrderStatus"@, 6) {
        Err(p) => Err(p),
        Ok(a) => match text_arg(a[1]) {
            Err(p) => Err(p),
            Ok(supplier) => if parse_supplier(supplier) is None {
                Err(ProblemView::UnknownSupplier(supplier))
            } else {
                match text_arg(a[0]) {
                    Err(p) => Err(p),
                    Ok(id) => match bool_arg(a[2]) {
                        Err(p) => Err(p),
                        Ok(accepted) => match bool_arg(a[3]) {
                            Err(p) => Err(p),
                            Ok(reversible) => match u32_arg(a[4]) {
                                Err(p) => Err(p),
                                Ok(n) => match text_arg(a[5]) {
                                    Err(p) => Err(p),
                                    Ok(ledger_ref) => Ok((id, supplier, accepted, reversible, n as u32, ledger_ref)),
                                },
                            },
                        },
                    },
                }
            },
        },
    }
}

/// A vehicle identity read back from its form: namespace and key.
pub open spec fn read_vehicle(e: ExprView) -> core::result::Result<(Seq<char>, Seq<char>), ProblemView> {
    match construct_args(e, "auto/VehicleId"@, 2) {
        Err(p) => Err(p),
        Ok(a) => match text_arg(a[0]) {
            Err(p) => Err(p),
            Ok(namespace) => match text_arg(a[1]) {
                Err(p) => Err(p),
                Ok(key) => Ok((namespace, key)),
            },
        },
    }
}

/// An evidence record read back from its form.
pub open spec fn read_evidence(e: ExprView) -> core::result::Result<EvidenceView, ProblemView> {
    match construct_args(e, "auto/LedgerInvoiceEvidence"@, 5) {
        Err(p) => Err(p),
        Ok(a) => match text_arg(a[0]) {
            Err(p) => Err(p),
            Ok(backend) => match text_arg(a[1]) {
                Err(p) => Err(p),
                Ok(external_id) => match opt_text_arg(a[2]) {
                    Err(p) => Err(p),
                    Ok(version) => match opt_text_arg(a[3]) {
                        Err(p) => Err(p),
                        Ok(web_url) => match opt_text_arg(a[4]) {
                            Err(p) => Err(p),
                            Ok(hint) => Ok((backend, external_id, version, web_url, hint)),
                        },
                    },
                },
            },
        },
    }
}

/// A posting read back from its form.
pub open spec fn read_posting(e: ExprView) -> core::result::Result<PostingView, ProblemView> {
    match construct_args(e, "auto/LedgerInvoicePosting"@, 3) {
        Err(p) => Err(p),
        Ok(a) => match text_arg(a[0]) {
            Err(p) => Err(p),
            Ok(account) => match i64_arg(a[1]) {
                Err(p) => Err(p),
                Ok(amount) => match text_arg(a[2]) {
                    Err(p) => Err(p),
                    Ok(text) => Ok((account, amount as i64, text)),
                },
            },
        },
    }
}

/// Postings read back from a list of forms, or the first problem.
pub open spec fn read_posting_items(items: Seq<ExprView>) -> core::result::Result<Seq<PostingView>, ProblemView>
    decreases items.len(),
{
    if items.len() == 0 {
        Ok(Seq::empty())
    } else {
        match read_posting_items(items.drop_last()) {
            Err(p) => Err(p),
            Ok(ps) => match read_posting(items.last()) {
                Err(p) => Err(p),
                Ok(x) => Ok(ps.push(x)),
            },
        }
    }
}

/// Evidence records read back from a list of forms, or the first problem.
pub open spec fn read_evidence_items(items: Seq<ExprView>) -> core::result::Result<Seq<EvidenceView>, ProblemView>
    decreases items.len(),
{
    if items.len() == 0 {
        Ok(Seq::empty())
    } else {
        match read_evidence_items(items.drop_last()) {
            Err(p) => Err(p),
            Ok(es) => match read_evidence(items.last()) {
                Err(p) => Err(p),
                Ok(x) => Ok(es.push(x)),
            },
        }
    }
}

/// An invoice export read back from its form.
pub open spec fn read_invoice(e: ExprView) -> core::result::Result<InvoiceView, ProblemView> {
    match construct_args(e, "auto/LedgerInvoiceExport"@, 5) {
        Err(p) => Err(p),
        Ok(a) => match text_arg(a[0]) {
            Err(p) => Err(p),
            Ok(date) => match text_arg(a[1]) {
                Err(p) => Err(p),
                Ok(text) => match text_arg(a[2]) {
                    Err(p) => Err(p),
                    Ok(currency) => match a[3] {
                        ExprView::List(pitems) => match read_posting_items(pitems) {
                            Err(p) => Err(p),
                            Ok(postings) => match a[4] {
                                ExprView::List(eitems) => match read_evidence_items(eitems) {
                                    Err(p) => Err(p),
                                    Ok(evidence) => Ok((date, text, currency, postings, evidence)),
                                },
                                other => Err(ProblemView::NotList(other)),
                            },
                        },
                        other => Err(ProblemView::NotList(other)),
                    },
                },
            },
        },
    }
}

fn part_line_of(expr: &Expr) -> (r: core::result::Result<PartLine, FieldError>)
    ensures
        match read_part_line(expr@) {
            Ok(v) => r matches Ok(x) && x@ == v,
            Err(p) => r matches Err(x) && x@ == ("parts"@, p),
        },
{
    let a = match read_construct_args(expr, "auto/PartLine", "parts", 4) {
        Ok(a) => a,
        Err(e) => {
            return Err(e);
        },
    };
    let oem = match opt_text_arg_of(&a[1], "parts") {
        Ok(o) => o,
        Err(e) => {
            return Err(e);
        },
    };
    let sku = match text_arg_of(&a[0], "parts") {
        Ok(t) => t,
        Err(e) => {
            return Err(e);
        },
    };
    let description = match text_arg_of(&a[2], "parts") {
        Ok(t) => t,
        Err(e) => {
            return Err(e);
        },
    };
    let qty = match u32_field(&a[3], "parts") {
        Ok(q) => q,
        Err(e) => {
            return Err(e);
        },
    };
    Ok(PartLine { sku, oem, description, qty })
}

/// Once a prefix of the forms fails, the whole list fails the same way.
proof fn lemma_part_items_error_sticks(items: Seq<ExprView>, k: int)
    requires
        0 <= k <= items.len(),
        read_part_line_items(items.take(k)) is Err,
    ensures
        read_part_line_items(items) == read_part_line_items(items.take(k)),
    decreases items.len(),
{
    if k == items.len() {
        assert(items.take(k) =~= items);
    } else {
        assert(items.drop_last().take(k) =~= items.take(k));
        lemma_part_items_error_sticks(items.drop_last(), k);
    }
}

/// Reads the part lines of a work order back from a list of forms.
pub fn decode_part_lines(expr: &Expr) -> (r: core::result::Result<Vec<PartLine>, FieldError>)
    ensures
        match read_part_lines(expr@) {
            Ok(v) => r matches Ok(x) && line_views(x@) == v,
            Err(p) => r matches Err(x) && x@ == ("parts"@, p),
        },
{
    let items = match expr {
        Expr::List(items) => {
            proof {
                crate::expr::lemma_list_view(*items);
            }
            items
        },
        other => {
            return Err(field_error("parts", FieldProblem::NotList(copy_expr(other))));
        },
    };
    let ghost iv = expr_views(items@);
    let mut out: Vec<PartLine> = Vec::new();
    let mut i: usize = 0;
    assert(iv.take(0) =~= Seq::<ExprView>::empty());
    assert(line_views(out@) =~= Seq::<PartLineView>::empty());
    while i < items.len()
        invariant
            iv == expr_views(items@),
            expr@ == ExprView::List(iv),
            i <= items@.len(),
            read_part_line_items(iv.take(i as int)) == Ok::<Seq<PartLineView>, ProblemView>(line_views(out@)),
        decreases items@.len() - i,
    {
        let ghost t = iv.take(i + 1);
        assert(t.drop_last() =~= iv.take(i as int));
        assert(t.last() == items@[i as int]@);
        match part_line_of(&items[i]) {
            Ok(l) => {
                let ghost before = out@;
                out.push(l);
                assert(line_views(out@) =~= line_views(before).push(l@));
            },
            Err(e) => {
                proof {
                    lemma_part_items_error_sticks(iv, i + 1);
                }
                return Err(e);
            },
        }
        i = i + 1;
    }
    assert(iv.take(items@.len() as int) =~= iv);
    Ok(out)
}

/// Reads an order status back from its form.
pub fn decode_order_status(expr: &Expr) -> (r: core::result::Result<OrderStatus, FieldError>)
    ensures
        match read_order_status(expr@) {
            Ok(v) => r matches Ok(x) && x@ == v,
            Err(p) => r matches Err(x) && x@ == ("order_status"@, p),
        },
{
    let a = match read_construct_args(expr, "auto/OrderStatus", "order_status", 6) {
        Ok(a) => a,
        Err(e) => {
            return Err(e);
        },
    };
    let supplier = match text_arg_of(&a[1], "order_status") {
        Ok(t) => t,
        Err(e) => {
            return Err(e);
        },
    };
    if Supplier::parse(supplier.as_str()).is_none() {
        return Err(field_error("order_status", FieldProblem::UnknownSupplier(supplier)));
    }
    let id = match text_arg_of(&a[0], "order_status") {
        Ok(t) => t,
        Err(e) => {
            return Err(e);
        },
    };
    let accepted = match bool_arg_of(&a[2], "order_status") {
        Ok(b) => b,
        Err(e) => {
            return Err(e);
        },
    };
    let reversible = match bool_arg_of(&a[3], "order_status") {
        Ok(b) => b,
        Err(e) => {
            return Err(e);
        },
    };
    let line_count = match u32_field(&a[4], "order_status") {
        Ok(n) => n,
        Err(e) => {
            return Err(e);
        },
    };
    let ledger_ref = match text_arg_of(&a[5], "order_status") {
        Ok(t) => t,
        Err(e) => {
            return Err(e);
        },
    };
    Ok(OrderStatus { id, supplier, accepted, reversible, line_count, ledger_ref })
}

/// Reads an optional order status: `nil` for none.
pub fn decode_optional_order_status(expr: &Expr) -> (r: core::result::Result<Option<OrderStatus>, FieldError>)
    ensures
        expr@ == ExprView::Nil ==> r matches Ok(None),
        expr@ != ExprView::Nil ==> match read_order_status(expr@) {
            Ok(v) => r matches Ok(Some(x)) && x@ == v,
            Err(p) => r matches Err(x) && x@ == ("order_status"@, p),
        },
{
    match expr {
        Expr::Nil => Ok(None),
        other => match decode_order_status(other) {
            Ok(s) => Ok(Some(s)),
            Err(e) => Err(e),
        },
    }
}

/// Reads a vehicle identity back from its form.
pub fn decode_vehicle(expr: &Expr) -> (r: core::result::Result<VehicleId, FieldError>)
    ensures
        match read_vehicle(expr@) {
            Ok(v) => r matches Ok(x) && x.namespace@ == v.0 && x.key@ == v.1,
            Err(p) => r matches Err(x) && x@ == ("vehicle"@, p),
        },
{
    let a = match read_construct_args(expr, "auto/VehicleId", "vehicle", 2) {
        Ok(a) => a,
        Err(e) => {
            return Err(e);
        },
    };
    let namespace = match text_arg_of(&a[0], "vehicle") {
        Ok(t) => t,
        Err(e) => {
            return Err(e);
        },
    };
    let key = match text_arg_of(&a[1], "vehicle") {
        Ok(t) => t,
        Err(e) => {
            return Err(e);
        },
    };
    Ok(VehicleId { namespace, key })
}

impl LedgerInvoiceEvidence {
    /// Reads an evidence reference back from its form.
    pub fn decode_field_expr(expr: &Expr, field: &str) -> (r: core::result::Result<Self, FieldError>)
        ensures
            match read_evidence(expr@) {
                Ok(v) => r matches Ok(x) && x@ == v,
                Err(p) => r matches Err(x) && x@ == (field@, p),
            },
    {
        let a = match read_construct_args(expr, "auto/LedgerInvoiceEvidence", field, 5) {
            Ok(a) => a,
            Err(e) => {
                return Err(e);
            },
        };
        let backend = match text_arg_of(&a[0], field) {
            Ok(t) => t,
            Err(e) => {
                return Err(e);
            },
        };
        let external_id = match text_arg_of(&a[1], field) {
            Ok(t) => t,
            Err(e) => {
                return Err(e);
            },
        };
        let version = match opt_text_arg_of(&a[2], field) {
            Ok(t) => t,
            Err(e) => {
                return Err(e);
            },
        };
        let web_url = match opt_text_arg_of(&a[3], field) {
            Ok(t) => t,
            Err(e) => {
                return Err(e);
            },
        };
        let immutable_hint = match opt_text_arg_of(&a[4], field) {
            Ok(t) => t,
            Err(e) => {
                return Err(e);
            },
        };
        Ok(LedgerInvoiceEvidence { backend, external_id, version, web_url, immutable_hint })
    }
}

impl LedgerInvoicePosting {
    /// Reads a posting back from its form.
    pub fn decode_field_expr(expr: &Expr, field: &str) -> (r: core::result::Result<Self, FieldError>)
        ensures
            match read_posting(expr@) {
                Ok(v) => r matches Ok(x) && x@ == v,
                Err(p) => r matches Err(x) && x@ == (field@, p),
            },
    {
        let a = match read_construct_args(expr, "auto/LedgerInvoicePosting", field, 3) {
            Ok(a) => a,
            Err(e) => {
                return Err(e);
            },
        };
        let account = match text_arg_of(&a[0], field) {
            Ok(t) => t,
            Err(e) => {
                return Err(e);
            },
        };
        let amount_minor = match i64_arg_of(&a[1], field) {
            Ok(v) => v,
            Err(e) => {
                return Err(e);
            },
        };
        let text = match text_arg_of(&a[2], field) {
            Ok(t) => t,
            Err(e) => {
                return Err(e);
            },
        };
        Ok(LedgerInvoicePosting { account, amount_minor, text })
    }
}

/// Once a prefix of the posting forms fails, the whole list fails the
/// same way.
proof fn lemma_posting_items_error_sticks(items: Seq<ExprView>, k: int)
    requires
        0 <= k <= items.len(),
        read_posting_items(items.take(k)) is Err,
    ensures
        read_posting_items(items) == read_posting_items(items.take(k)),
    decreases items.len(),
{
    if k == items.len() {
        assert(items.take(k) =~= items);
    } else {
        assert(items.drop_last().take(k) =~= items.take(k));
        lemma_posting_items_error_sticks(items.drop_last(), k);
    }
}

/// Once a prefix of the evidence forms fails, the whole list fails the
/// same way.
proof fn lemma_evidence_items_error_sticks(items: Seq<ExprView>, k: int)
    requires
        0 <= k <= items.len(),
        read_evidence_items(items.take(k)) is Err,
    ensures
        read_evidence_items(items) == read_evidence_items(items.take(k)),
    decreases items.len(),
{
    if k == items.len() {
        assert(items.take(k) =~= items);
    } else {
        assert(items.drop_last().take(k) =~= items.take(k));
        lemma_evidence_items_error_sticks(items.drop_last(), k);
    }
}

fn postings_of(items: &[Expr], field: &str) -> (r: core::result::Result<Vec<LedgerInvoicePosting>, FieldError>)
    ensures
        match read_posting_items(expr_views(items@)) {
            Ok(v) => r matches Ok(x) && posting_views(x@) == v,
            Err(p) => r matches Err(x) && x@ == (field@, p),
        },
{
    let ghost iv = expr_views(items@);
    let mut out: Vec<LedgerInvoicePosting> = Vec::new();
    let mut i: usize = 0;
    assert(iv.take(0) =~= Seq::<ExprView>::empty());
    assert(posting_views(out@) =~= Seq::<PostingView>::empty());
    while i < items.len()
        invariant
            iv == expr_views(items@),
            i <= items@.len(),
            read_posting_items(iv.take(i as int)) == Ok::<Seq<PostingView>, ProblemView>(posting_views(out@)),
        decreases items@.len() - i,
    {
        let ghost t = iv.take(i + 1);
        assert(t.drop_last() =~= iv.take(i as int));
        assert(t.last() == items@[i as int]@);
        match LedgerInvoicePosting::decode_field_expr(&items[i], field) {
            Ok(x) => {
                let ghost before = out@;
                out.push(x);
                assert(posting_views(out@) =~= posting_views(before).push(x@));
            },
            Err(e) => {
                proof {
                    lemma_posting_items_error_sticks(iv, i + 1);
                }
                return Err(e);
            },
        }
        i = i + 1;
    }
    assert(iv.take(items@.len() as int) =~= iv);
    Ok(out)
}

fn evidence_of(items: &[Expr], field: &str) -> (r: core::result::Result<Vec<LedgerInvoiceEvidence>, FieldError>)
    ensures
        match read_evidence_items(expr_views(items@)) {
            Ok(v) => r matches Ok(x) && evidence_views(x@) == v,
            Err(p) => r matches Err(x) && x@ == (field@, p),
        },
{
    let ghost iv = expr_views(items@);
    let mut out: Vec<LedgerInvoiceEvidence> = Vec::new();
    let mut i: usize = 0;
    assert(iv.take(0) =~= Seq::<ExprView>::empty());
    assert(evidence_views(out@) =~= Seq::<EvidenceView>::empty());
    while i < items.len()
        invariant
            iv == expr_views(items@),
            i <= items@.len(),
            read_evidence_items(iv.take(i as int)) == Ok::<Seq<EvidenceView>, ProblemView>(evidence_views(out@)),
        decreases items@.len() - i,
    {
        let ghost t = iv.take(i + 1);
        assert(t.drop_last() =~= iv.take(i as int));
        assert(t.last() == items@[i as int]@);
        match LedgerInvoiceEvidence::decode_field_expr(&items[i], field) {
            Ok(x) => {
                let ghost before = out@;
                out.push(x);
                assert(evidence_views(out@) =~= evidence_views(before).push(x@));
            },
            Err(e) => {
                proof {
                    lemma_evidence_items_error_sticks(iv, i + 1);
                }
                return Err(e);
            },
        }
        i = i + 1;
    }
    assert(iv.take(items@.len() as int) =~= iv);
    Ok(out)
}

impl LedgerInvoiceExport {
    /// Reads an invoice export back from its form.
    pub fn decode_field_expr(expr: &Expr, field: &str) -> (r: core::result::Result<Self, FieldError>)
        ensures
            match read_invoice(expr@) {
                Ok(v) => r matches Ok(x) && invoice_view(x) == v,
                Err(p) => r matches Err(x) && x@ == (field@, p),
            },
    {
        let a = match read_construct_args(expr, "auto/LedgerInvoiceExport", field, 5) {
            Ok(a) => a,
            Err(e) => {
                return Err(e);
            },
        };
        let voucher_date = match text_arg_of(&a[0], field) {
            Ok(t) => t,
            Err(e) => {
                return Err(e);
            },
        };
        let voucher_text = match text_arg_of(&a[1], field) {
            Ok(t) => t,
            Err(e) => {
                return Err(e);
            },
        };
        let currency = match text_arg_of(&a[2], field) {
            Ok(t) => t,
            Err(e) => {
                return Err(e);
            },
        };
        let postings = match &a[3] {
            Expr::List(items) => {
                proof {
                    crate::expr::lemma_list_view(*items);
                }
                match postings_of(items.as_slice(), field) {
                    Ok(v) => v,
                    Err(e) => {
                        return Err(e);
                    },
                }
            },
            other => {
                return Err(field_error(field, FieldProblem::NotList(copy_expr(other))));
            },
        };
        let evidence = match &a[4] {
            Expr::List(items) => {
                proof {
                    crate::expr::lemma_list_view(*items);
                }
                match evidence_of(items.as_slice(), field) {
                    Ok(v) => v,
                    Err(e) => {
                        return Err(e);
                    },
                }
            },
            other => {
                return Err(field_error(field, FieldProblem::NotList(copy_expr(other))));
            },
        };
        Ok(LedgerInvoiceExport { voucher_date, voucher_text, currency, postings, evidence })
    }
}

/// A read-construct form of `class` with `v0` and `args` reads back as
/// `args`.
pub proof fn lemma_construct_args_of_form(class: Seq<char>, args: Seq<ExprView>)
    ensures
        construct_args(read_construct_view(symbol_of_text(class), seq![v0_view()] + args), class, args.len())
            == Ok::<Seq<ExprView>, ProblemView>(args),
{
    let items = seq![ExprView::Sym(symbol_of_text(class))] + (seq![v0_view()] + args);
    assert(items.len() == args.len() + 2);
    assert(items[0] == ExprView::Sym(symbol_of_text(class)));
    assert(items[1] == v0_view());
    assert(items.subrange(2, items.len() as int) =~= args);
}

/// An optional string written out reads back as itself.
pub proof fn lemma_opt_text_round_trip(o: Option<Seq<char>>)
    ensures
        opt_text_arg(opt_expr_view(o)) == Ok::<Option<Seq<char>>, ProblemView>(o),
{
}

/// A `u32` written in decimal reads back as itself.
pub proof fn lemma_u32_round_trip(q: u32)
    ensures
        u32_arg(core_number(decimal(q as nat))) == Ok::<int, ProblemView>(q as int),
{
    crate::numtext::lemma_decimal_digits(q as nat);
    assert(is_digit(decimal(q as nat)[0]));
    crate::numtext::lemma_parse_decimal(q as nat, i64::MAX as int);
}

/// An `i64` written in decimal reads back as itself.
pub proof fn lemma_i64_round_trip(v: i64)
    ensures
        i64_arg(core_number(signed_decimal(v as int))) == Ok::<int, ProblemView>(v as int),
{
    if v < 0 {
        let n = (-v) as nat;
        crate::numtext::lemma_decimal_digits(n);
        let t = signed_decimal(v as int);
        assert(t.drop_first() =~= decimal(n));
    } else {
        crate::numtext::lemma_decimal_digits(v as nat);
        assert(is_digit(decimal(v as nat)[0]));
        crate::numtext::lemma_parse_decimal(v as nat, i64::MAX as int);
    }
}

/// A part line written out reads back as itself.
pub proof fn lemma_part_line_round_trip(l: PartLineView)
    ensures
        read_part_line(part_line_form(l)) == Ok::<PartLineView, ProblemView>(l),
{
    let args = seq![ExprView::Text(l.0), opt_expr_view(l.1), ExprView::Text(l.2), core_number(decimal(l.3 as nat))];
    assert(seq![v0_view(), ExprView::Text(l.0), opt_expr_view(l.1), ExprView::Text(l.2), core_number(decimal(l.3 as nat))]
        =~= seq![v0_view()] + args);
    lemma_construct_args_of_form("auto/PartLine"@, args);
    lemma_opt_text_round_trip(l.1);
    lemma_u32_round_trip(l.3);
}

/// Part lines written out as a list read back as themselves.
pub proof fn lemma_part_lines_round_trip(ls: Seq<PartLineView>)
    ensures
        read_part_line_items(ls.map_values(|l: PartLineView| part_line_form(l))) == Ok::<Seq<PartLineView>, ProblemView>(ls),
    decreases ls.len(),
{
    let items = ls.map_values(|l: PartLineView| part_line_form(l));
    if ls.len() > 0 {
        assert(items.drop_last() =~= ls.drop_last().map_values(|l: PartLineView| part_line_form(l)));
        lemma_part_lines_round_trip(ls.drop_last());
        lemma_part_line_round_trip(ls.last());
        assert(ls.drop_last().push(ls.last()) =~= ls);
    } else {
        assert(ls =~= Seq::<PartLineView>::empty());
    }
}

/// An order status whose supplier label names a supplier, written out,
/// reads back as itself.
pub proof fn lemma_order_status_round_trip(st: OrderStatusView)
    requires
        parse_supplier(st.1) is Some,
    ensures
        read_order_status(order_status_form(st)) == Ok::<OrderStatusView, ProblemView>(st),
{
    let args = seq![
        ExprView::Text(st.0),
        ExprView::Text(st.1),
        ExprView::Bool(st.2),
        ExprView::Bool(st.3),
        core_number(decimal(st.4 as nat)),
        ExprView::Text(st.5),
    ];
    assert(seq![
        v0_view(),
        ExprView::Text(st.0),
        ExprView::Text(st.1),
        ExprView::Bool(st.2),
        ExprView::Bool(st.3),
        core_number(decimal(st.4 as nat)),
        ExprView::Text(st.5),
    ] =~= seq![v0_view()] + args);
    lemma_construct_args_of_form("auto/OrderStatus"@, args);
    lemma_u32_round_trip(st.4);
}

/// A vehicle identity written out reads back as itself.
pub proof fn lemma_vehicle_round_trip(namespace: Seq<char>, key: Seq<char>)
    ensures
        read_vehicle(crate::read_construct::vehicle_construct_view(namespace, key)) == Ok::<(Seq<char>, Seq<char>), ProblemView>(
            (namespace, key),
        ),
{
    let args = seq![ExprView::Text(namespace), ExprView::Text(key)];
    assert(seq![v0_view(), ExprView::Text(namespace), ExprView::Text(key)] =~= seq![v0_view()] + args);
    lemma_vehicle_class_symbol();
    lemma_construct_args_of_form("auto/VehicleId"@, args);
}

/// The text `auto/VehicleId` names the qualified symbol `auto` /
/// `VehicleId`.
proof fn lemma_vehicle_class_symbol()
    ensures
        symbol_of_text("auto/VehicleId"@) == (Some("auto"@), "VehicleId"@),
{
    let t = "auto/VehicleId"@;
    reveal_strlit("auto/VehicleId");
    reveal_strlit("auto");
    reveal_strlit("VehicleId");
    assert(crate::libs::first_slash(t, 4));
    let i = choose|i: int| crate::libs::first_slash(t, i);
    assert(i == 4) by {
        if i < 4 {
            assert(t[i] != '/');
        } else if i > 4 {
            assert(t[4] == '/');
        }
    }
    assert(t.subrange(0, 4) =~= "auto"@);
    assert(t.subrange(5, t.len() as int) =~= "VehicleId"@);
}

/// An evidence record written out reads back as itself.
pub proof fn lemma_evidence_round_trip(e: EvidenceView)
    ensures
        read_evidence(evidence_form(e)) == Ok::<EvidenceView, ProblemView>(e),
{
    let args = seq![ExprView::Text(e.0), ExprView::Text(e.1), opt_expr_view(e.2), opt_expr_view(e.3), opt_expr_view(e.4)];
    assert(seq![v0_view(), ExprView::Text(e.0), ExprView::Text(e.1), opt_expr_view(e.2), opt_expr_view(e.3), opt_expr_view(e.4)]
        =~= seq![v0_view()] + args);
    lemma_construct_args_of_form("auto/LedgerInvoiceEvidence"@, args);
    lemma_opt_text_round_trip(e.2);
    lemma_opt_text_round_trip(e.3);
    lemma_opt_text_round_trip(e.4);
}

/// A posting written out reads back as itself.
pub proof fn lemma_posting_round_trip(p: PostingView)
    ensures
        read_posting(posting_form(p)) == Ok::<PostingView, ProblemView>(p),
{
    let args = seq![ExprView::Text(p.0), core_number(signed_decimal(p.1 as int)), ExprView::Text(p.2)];
    assert(seq![v0_view(), ExprView::Text(p.0), core_number(signed_decimal(p.1 as int)), ExprView::Text(p.2)]
        =~= seq![v0_view()] + args);
    lemma_construct_args_of_form("auto/LedgerInvoicePosting"@, args);
    lemma_i64_round_trip(p.1);
}

/// Postings written out as a list read back as themselves.
proof fn lemma_postings_round_trip(ps: Seq<PostingView>)
    ensures
        read_posting_items(ps.map_values(|p: PostingView| posting_form(p))) == Ok::<Seq<PostingView>, ProblemView>(ps),
    decreases ps.len(),
{
    let items = ps.map_values(|p: PostingView| posting_form(p));
    if ps.len() > 0 {
        assert(items.drop_last() =~= ps.drop_last().map_values(|p: PostingView| posting_form(p)));
        lemma_postings_round_trip(ps.drop_last());
        lemma_posting_round_trip(ps.last());
        assert(ps.drop_last().push(ps.last()) =~= ps);
    } else {
        assert(ps =~= Seq::<PostingView>::empty());
    }
}

/// Evidence records written out as a list read back as themselves.
proof fn lemma_evidences_round_trip(es: Seq<EvidenceView>)
    ensures
        read_evidence_items(es.map_values(|e: EvidenceView| evidence_form(e))) == Ok::<Seq<EvidenceView>, ProblemView>(es),
    decreases es.len(),
{
    let items = es.map_values(|e: EvidenceView| evidence_form(e));
    if es.len() > 0 {
        assert(items.drop_last() =~= es.drop_last().map_values(|e: EvidenceView| evidence_form(e)));
        lemma_evidences_round_trip(es.drop_last());
        lemma_evidence_round_trip(es.last());
        assert(es.drop_last().push(es.last()) =~= es);
    } else {
        assert(es =~= Seq::<EvidenceView>::empty());
    }
}

/// An invoice export written out reads back as itself.
pub proof fn lemma_invoice_round_trip(x: InvoiceView)
    ensures
        read_invoice(invoice_form(x)) == Ok::<InvoiceView, ProblemView>(x),
{
    let pl = ExprView::List(x.3.map_values(|p: PostingView| posting_form(p)));
    let el = ExprView::List(x.4.map_values(|e: EvidenceView| evidence_form(e)));
    let args = seq![ExprView::Text(x.0), ExprView::Text(x.1), ExprView::Text(x.2), pl, el];
    assert(seq![v0_view(), ExprView::Text(x.0), ExprView::Text(x.1), ExprView::Text(x.2), pl, el] =~= seq![v0_view()] + args);
    lemma_construct_args_of_form("auto/LedgerInvoiceExport"@, args);
    lemma_postings_round_trip(x.3);
    lemma_evidences_round_trip(x.4);
}

/// The map a status field is written as: one flag per status bit.
pub open spec fn status_fields_view(st: crate::status::DtcStatus) -> ExprView {
    ExprView::Dict(
        seq![
            crate::uds_expr::flag_entry("test_failed"@, st.test_failed),
            crate::uds_expr::flag_entry("test_failed_this_operation_cycle"@, st.test_failed_this_operation_cycle),
            crate::uds_expr::flag_entry("pending"@, st.pending),
            crate::uds_expr::flag_entry("confirmed"@, st.confirmed),
            crate::uds_expr::flag_entry("test_not_completed_since_clear"@, st.test_not_completed_since_clear),
            crate::uds_expr::flag_entry("test_failed_since_clear"@, st.test_failed_since_clear),
            crate::uds_expr::flag_entry("test_not_completed_this_operation_cycle"@, st.test_not_completed_this_operation_cycle),
            crate::uds_expr::flag_entry("warning_indicator"@, st.warning_indicator),
        ],
    )
}

fn flag(name: &str, value: bool) -> (r: (Expr, Expr))
    ensures
        r.0@ == crate::expr::key_view(name@),
        r.1@ == ExprView::Bool(value),
{
    (crate::expr::key(name), Expr::Bool(value))
}

/// Writes a DTC status as the flag map of the `status` field of a DTC.
pub fn dtc_status_field_expr(st: &crate::status::DtcStatus) -> (r: Expr)
    ensures
        r@ == status_fields_view(*st),
{
    let entries = vec![
        flag("test_failed", st.test_failed),
        flag("test_failed_this_operation_cycle", st.test_failed_this_operation_cycle),
        flag("pending", st.pending),
        flag("confirmed", st.confirmed),
        flag("test_not_completed_since_clear", st.test_not_completed_since_clear),
        flag("test_failed_since_clear", st.test_failed_since_clear),
        flag("test_not_completed_this_operation_cycle", st.test_not_completed_this_operation_cycle),
        flag("warning_indicator", st.warning_indicator),
    ];
    assert(crate::expr::entry_views(entries@) =~= seq![
        crate::uds_expr::flag_entry("test_failed"@, st.test_failed),
        crate::uds_expr::flag_entry("test_failed_this_operation_cycle"@, st.test_failed_this_operation_cycle),
        crate::uds_expr::flag_entry("pending"@, st.pending),
        crate::uds_expr::flag_entry("confirmed"@, st.confirmed),
        crate::uds_expr::flag_entry("test_not_completed_since_clear"@, st.test_not_completed_since_clear),
        crate::uds_expr::flag_entry("test_failed_since_clear"@, st.test_failed_since_clear),
        crate::uds_expr::flag_entry("test_not_completed_this_operation_cycle"@, st.test_not_completed_this_operation_cycle),
        crate::uds_expr::flag_entry("warning_indicator"@, st.warning_indicator),
    ]);
    crate::expr::dict_expr(entries)
}

/// One flag of a status map: the first entry keyed `name`, which must
/// hold a boolean.
pub open spec fn read_flag(es: Seq<(ExprView, ExprView)>, name: Seq<char>) -> core::result::Result<bool, Seq<char>> {
    match crate::expr::find_field(es, name) {
        Some(ExprView::Bool(b)) => Ok(b),
        Some(_) => Err("DTC status field "@ + name + " must be bool"@),
        None => Err("missing DTC status field "@ + name),
    }
}

/// A status read back from its flag map, flag by flag in bit order.
pub open spec fn read_status_fields(e: ExprView) -> core::result::Result<crate::status::DtcStatus, Seq<char>> {
    match e {
        ExprView::Dict(es) => match read_flag(es, "test_failed"@) {
            Err(m) => Err(m),
            Ok(f0) => match read_flag(es, "test_failed_this_operation_cycle"@) {
                Err(m) => Err(m),
                Ok(f1) => match read_flag(es, "pending"@) {
                    Err(m) => Err(m),
                    Ok(f2) => match read_flag(es, "confirmed"@) {
                        Err(m) => Err(m),
                        Ok(f3) => match read_flag(es, "test_not_completed_since_clear"@) {
                            Err(m) => Err(m),
                            Ok(f4) => match read_flag(es, "test_failed_since_clear"@) {
                                Err(m) => Err(m),
                                Ok(f5) => match read_flag(es, "test_not_completed_this_operation_cycle"@) {
                                    Err(m) => Err(m),
                                    Ok(f6) => match read_flag(es, "warning_indicator"@) {
                                        Err(m) => Err(m),
                                        Ok(f7) => Ok(
                                            crate::status::DtcStatus {
                                                test_failed: f0,
                                                test_failed_this_operation_cycle: f1,
                                                pending: f2,
                                                confirmed: f3,
                                                test_not_completed_since_clear: f4,
                                                test_failed_since_clear: f5,
                                                test_not_completed_this_operation_cycle: f6,
                                                warning_indicator: f7,
                                            },
                                        ),
                                    },
                                },
                            },
                        },
                    },
                },
            },
        },
        _ => Err("DTC status citizen field must be a map"@),
    }
}

fn flag_of(entries: &[(Expr, Expr)], name: &str) -> (r: crate::kernel::Result<bool>)
    ensures
        match read_flag(crate::expr::entry_views(entries@), name@) {
            Ok(b) => r == Ok::<bool, crate::kernel::Error>(b),
            Err(m) => r matches Err(crate::kernel::Error::Eval(x)) && x@ == m,
        },
{
    match crate::expr::optional_field(entries, name) {
        Some(Expr::Bool(b)) => Ok(*b),
        Some(_) => {
            let mut text = chars_of("DTC status field ");
            crate::text::push_str(&mut text, name);
            crate::text::push_str(&mut text, " must be bool");
            Err(crate::kernel::Error::Eval(crate::text::string_of(text.as_slice())))
        },
        None => {
            let mut text = chars_of("missing DTC status field ");
            crate::text::push_str(&mut text, name);
            Err(crate::kernel::Error::Eval(crate::text::string_of(text.as_slice())))
        },
    }
}

/// Reads the `status` field of a DTC back from its flag map.
pub fn decode_dtc_status_field(expr: &Expr) -> (r: crate::kernel::Result<crate::status::DtcStatus>)
    ensures
        match read_status_fields(expr@) {
            Ok(st) => r == Ok::<crate::status::DtcStatus, crate::kernel::Error>(st),
            Err(m) => r matches Err(crate::kernel::Error::Eval(x)) && x@ == m,
        },
{
    let entries = match expr {
        Expr::Dict(entries) => {
            proof {
                crate::expr::lemma_dict_view(*entries);
            }
            entries.as_slice()
        },
        _ => {
            return Err(crate::kernel::Error::Eval("DTC status citizen field must be a map".to_owned()));
        },
    };
    let f0 = match flag_of(entries, "test_failed") {
        Ok(b) => b,
        Err(e) => {
            return Err(e);
        },
    };
    let f1 = match flag_of(entries, "test_failed_this_operation_cycle") {
        Ok(b) => b,
        Err(e) => {
            return Err(e);
        },
    };
    let f2 = match flag_of(entries, "pending") {
        Ok(b) => b,
        Err(e) => {
            return Err(e);
        },
    };
    let f3 = match flag_of(entries, "confirmed") {
        Ok(b) => b,
        Err(e) => {
            return Err(e);
        },
    };
    let f4 = match flag_of(entries, "test_not_completed_since_clear") {
        Ok(b) => b,
        Err(e) => {
            return Err(e);
        },
    };
    let f5 = match flag_of(entries, "test_failed_since_clear") {
        Ok(b) => b,
        Err(e) => {
            return Err(e);
        },
    };
    let f6 = match flag_of(entries, "test_not_completed_this_operation_cycle") {
        Ok(b) => b,
        Err(e) => {
            return Err(e);
        },
    };
    let f7 = match flag_of(entries, "warning_indicator") {
        Ok(b) => b,
        Err(e) => {
            return Err(e);
        },
    };
    Ok(
        crate::status::DtcStatus {
            test_failed: f0,
            test_failed_this_operation_cycle: f1,
            pending: f2,
            confirmed: f3,
            test_not_completed_since_clear: f4,
            test_failed_since_clear: f5,
            test_not_completed_this_operation_cycle: f6,
            warning_indicator: f7,
        },
    )
}

/// A status written as its flag map reads back as itself.
pub proof fn lemma_status_fields_round_trip(st: crate::status::DtcStatus)
    ensures
        read_status_fields(status_fields_view(st)) == Ok::<crate::status::DtcStatus, Seq<char>>(st),
{
    reveal_with_fuel(crate::uds_expr::absent_before, 8);
    reveal_strlit("test_failed");
    reveal_strlit("test_failed_this_operation_cycle");
    reveal_strlit("pending");
    reveal_strlit("confirmed");
    reveal_strlit("test_not_completed_since_clear");
    reveal_strlit("test_failed_since_clear");
    reveal_strlit("test_not_completed_this_operation_cycle");
    reveal_strlit("warning_indicator");
    assert("test_failed"@.len() == 11);
    assert("test_failed_this_operation_cycle"@.len() == 32);
    assert("pending"@.len() == 7);
    assert("confirmed"@.len() == 9);
    assert("test_not_completed_since_clear"@.len() == 30);
    assert("test_failed_since_clear"@.len() == 23);
    assert("test_not_completed_this_operation_cycle"@.len() == 39);
    assert("warning_indicator"@.len() == 17);
    let es = status_fields_view(st)->Dict_0;
    crate::uds_expr::lemma_find_first(es, "test_failed"@, 0);
    crate::uds_expr::lemma_find_first(es, "test_failed_this_operation_cycle"@, 1);
    crate::uds_expr::lemma_find_first(es, "pending"@, 2);
    crate::uds_expr::lemma_find_first(es, "confirmed"@, 3);
    crate::uds_expr::lemma_find_first(es, "test_not_completed_since_clear"@, 4);
    crate::uds_expr::lemma_find_first(es, "test_failed_since_clear"@, 5);
    crate::uds_expr::lemma_find_first(es, "test_not_completed_this_operation_cycle"@, 6);
    crate::uds_expr::lemma_find_first(es, "warning_indicator"@, 7);
}

} // verus!
