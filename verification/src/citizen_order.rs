//! Work-order citizens written as read-construct forms and read back:
//! events, ledgers, shop capability profiles, work orders and conformance
//! reports.

use vstd::prelude::*;

use crate::citizen::{
    FieldError, FieldProblem, bool_arg_of, field_error, text_arg_of, InvoiceView, ProblemView, construct_args, core_number, decode_optional_order_status,
    decode_part_lines, decode_vehicle, invoice_form, invoice_view, lemma_construct_args_of_form, lemma_invoice_round_trip,
    lemma_order_status_round_trip, lemma_part_lines_round_trip, lemma_u32_round_trip, lemma_vehicle_round_trip,
    order_status_form, part_line_form, read_construct_args, read_invoice, read_order_status, read_part_lines,
    read_vehicle, text_arg, u32_arg, bool_arg, v0_view,
};
use crate::diag::copy_expr;
use crate::domain::{BrandCaps, strs};
use crate::expr::{Expr, ExprView, NumberLiteral, Symbol, expr_views, list_expr};
use crate::kernel::{CapabilityName, cap_views};
use crate::libs::symbol_of_text;
use crate::numtext::{decimal, decimal_string};
use crate::order::{
    ConformanceReport, EventView, LedgerInvoiceExport, WorkOrder, WorkOrderEvent, WorkOrderLedger, event_views,
};
use crate::parts::{OrderStatusView, PartLine, PartLineView, line_views, parse_supplier};
use crate::read_construct::{read_construct_view, text_read_construct_expr, vehicle_construct_view, vehicle_read_construct};

verus! {

/// A list of strings written out.
pub open spec fn text_list(v: Seq<Seq<char>>) -> ExprView {
    ExprView::List(v.map_values(|t: Seq<char>| ExprView::Text(t)))
}

fn text_list_expr(items: &[String]) -> (r: Expr)
    ensures
        r@ == text_list(strs(items@)),
{
    let ghost want = strs(items@).map_values(|t: Seq<char>| ExprView::Text(t));
    let mut out: Vec<Expr> = Vec::new();
    let mut i: usize = 0;
    while i < items.len()
        invariant
            i <= items@.len(),
            want == strs(items@).map_values(|t: Seq<char>| ExprView::Text(t)),
            expr_views(out@) == want.take(i as int),
        decreases items@.len() - i,
    {
        let ghost before = out@;
        out.push(Expr::String(items[i].clone()));
        assert(expr_views(out@) =~= expr_views(before).push(ExprView::Text(items@[i as int]@)));
        assert(want.take(i + 1) =~= want.take(i as int).push(want[i as int]));
        i = i + 1;
    }
    assert(want.take(items@.len() as int) =~= want);
    list_expr(out)
}

/// Strings read back from a list of forms, or the first problem.
pub open spec fn read_text_items(items: Seq<ExprView>) -> core::result::Result<Seq<Seq<char>>, ProblemView>
    decreases items.len(),
{
    if items.len() == 0 {
        Ok(Seq::empty())
    } else {
        match read_text_items(items.drop_last()) {
            Err(p) => Err(p),
            Ok(ts) => match text_arg(items.last()) {
                Err(p) => Err(p),
                Ok(t) => Ok(ts.push(t)),
            },
        }
    }
}

/// A list of strings read back.
pub open spec fn read_text_list(e: ExprView) -> core::result::Result<Seq<Seq<char>>, ProblemView> {
    match e {
        ExprView::List(items) => read_text_items(items),
        other => Err(ProblemView::NotList(other)),
    }
}

proof fn lemma_text_items_error_sticks(items: Seq<ExprView>, k: int)
    requires
        0 <= k <= items.len(),
        read_text_items(items.take(k)) is Err,
    ensures
        read_text_items(items) == read_text_items(items.take(k)),
    decreases items.len(),
{
    if k == items.len() {
        assert(items.take(k) =~= items);
    } else {
        assert(items.drop_last().take(k) =~= items.take(k));
        lemma_text_items_error_sticks(items.drop_last(), k);
    }
}

/// Reads a list of strings back.
pub fn string_list_arg(e: &Expr, field: &str) -> (r: core::result::Result<Vec<String>, FieldError>)
    ensures
        match read_text_list(e@) {
            Ok(v) => r matches Ok(x) && strs(x@) == v,
            Err(p) => r matches Err(x) && x@ == (field@, p),
        },
{
    let items = match e {
        Expr::List(items) => {
            proof {
                crate::expr::lemma_list_view(*items);
            }
            items
        },
        other => {
            return Err(field_error(field, FieldProblem::NotList(copy_expr(other))));
        },
    };
    let ghost iv = expr_views(items@);
    let mut out: Vec<String> = Vec::new();
    let mut i: usize = 0;
    assert(iv.take(0) =~= Seq::<ExprView>::empty());
    assert(strs(out@) =~= Seq::<Seq<char>>::empty());
    while i < items.len()
        invariant
            iv == expr_views(items@),
            e@ == ExprView::List(iv),
            i <= items@.len(),
            read_text_items(iv.take(i as int)) == Ok::<Seq<Seq<char>>, ProblemView>(strs(out@)),
        decreases items@.len() - i,
    {
        let ghost t = iv.take(i + 1);
        assert(t.drop_last() =~= iv.take(i as int));
        assert(t.last() == items@[i as int]@);
        match text_arg_of(&items[i], field) {
            Ok(s) => {
                let ghost before = out@;
                out.push(s);
                assert(strs(out@) =~= strs(before).push(s@));
            },
            Err(x) => {
                proof {
                    lemma_text_items_error_sticks(iv, i + 1);
                }
                return Err(x);
            },
        }
        i = i + 1;
    }
    assert(iv.take(items@.len() as int) =~= iv);
    Ok(out)
}

/// Strings written out as a list read back as themselves.
pub proof fn lemma_text_list_round_trip(v: Seq<Seq<char>>)
    ensures
        read_text_list(text_list(v)) == Ok::<Seq<Seq<char>>, ProblemView>(v),
{
    lemma_text_items_round_trip(v);
}

proof fn lemma_text_items_round_trip(v: Seq<Seq<char>>)
    ensures
        read_text_items(v.map_values(|t: Seq<char>| ExprView::Text(t))) == Ok::<Seq<Seq<char>>, ProblemView>(v),
    decreases v.len(),
{
    let items = v.map_values(|t: Seq<char>| ExprView::Text(t));
    if v.len() > 0 {
        assert(items.drop_last() =~= v.drop_last().map_values(|t: Seq<char>| ExprView::Text(t)));
        lemma_text_items_round_trip(v.drop_last());
        assert(v.drop_last().push(v.last()) =~= v);
    } else {
        assert(v =~= Seq::<Seq<char>>::empty());
    }
}

/// The read-construct form of a work-order event.
pub open spec fn event_form(e: EventView) -> ExprView {
    read_construct_view(
        symbol_of_text("auto/WorkOrderEvent"@),
        seq![
            v0_view(),
            ExprView::Text(e.site),
            ExprView::Text(e.operation),
            ExprView::Text(e.lane),
            ExprView::Text(e.capability),
            ExprView::Text(e.effect),
            ExprView::Text(e.outcome),
            ExprView::Text(e.note),
            text_list(e.delegated_capabilities),
        ],
    )
}

impl WorkOrderEvent {
    /// Writes the event as explicit read-construct data.
    pub fn to_expr(&self) -> (r: Expr)
        ensures
            r@ == event_form(self@),
    {
        let args = vec![
            Expr::Symbol(Symbol::new("v0")),
            Expr::String(self.site.clone()),
            Expr::String(self.operation.clone()),
            Expr::String(self.lane.clone()),
            Expr::String(self.capability.clone()),
            Expr::String(self.effect.clone()),
            Expr::String(self.outcome.clone()),
            Expr::String(self.note.clone()),
            text_list_expr(self.delegated_capabilities.as_slice()),
        ];
        assert(expr_views(args@) =~= seq![
            v0_view(),
            ExprView::Text(self@.site),
            ExprView::Text(self@.operation),
            ExprView::Text(self@.lane),
            ExprView::Text(self@.capability),
            ExprView::Text(self@.effect),
            ExprView::Text(self@.outcome),
            ExprView::Text(self@.note),
            text_list(self@.delegated_capabilities),
        ]);
        text_read_construct_expr("auto/WorkOrderEvent", args)
    }
}

/// A work-order event read back from its form.
pub open spec fn read_event(e: ExprView) -> core::result::Result<EventView, ProblemView> {
    match construct_args(e, "auto/WorkOrderEvent"@, 8) {
        Err(p) => Err(p),
        Ok(a) => match text_arg(a[0]) {
            Err(p) => Err(p),
            Ok(site) => match text_arg(a[1]) {
                Err(p) => Err(p),
                Ok(operation) => match text_arg(a[2]) {
                    Err(p) => Err(p),
                    Ok(lane) => match text_arg(a[3]) {
                        Err(p) => Err(p),
                        Ok(capability) => match text_arg(a[4]) {
                            Err(p) => Err(p),
                            Ok(effect) => match text_arg(a[5]) {
                                Err(p) => Err(p),
                                Ok(outcome) => match text_arg(a[6]) {
                                    Err(p) => Err(p),
                                    Ok(note) => match read_text_list(a[7]) {
                                        Err(p) => Err(p),
                                        Ok(delegated_capabilities) => Ok(
                                            EventView {
                                                site,
                                                operation,
                                                lane,
                                                capability,
                                                effect,
                                                outcome,
                                                note,
                                                delegated_capabilities,
                                            },
                                        ),
                                    },
                                },
                            },
                        },
                    },
                },
            },
        },
    }
}

impl WorkOrderEvent {
    /// Reads an event back from its form.
    pub fn decode_field_expr(expr: &Expr, field: &str) -> (r: core::result::Result<Self, FieldError>)
        ensures
            match read_event(expr@) {
                Ok(v) => r matches Ok(x) && x@ == v,
                Err(p) => r matches Err(x) && x@ == (field@, p),
            },
    {
        let a = match read_construct_args(expr, "auto/WorkOrderEvent", field, 8) {
            Ok(a) => a,
            Err(e) => {
                return Err(e);
            },
        };
        let site = match text_arg_of(&a[0], field) {
            Ok(t) => t,
            Err(e) => {
                return Err(e);
            },
        };
        let operation = match text_arg_of(&a[1], field) {
            Ok(t) => t,
            Err(e) => {
                return Err(e);
            },
        };
        let lane = match text_arg_of(&a[2], field) {
            Ok(t) => t,
            Err(e) => {
                return Err(e);
            },
        };
        let capability = match text_arg_of(&a[3], field) {
            Ok(t) => t,
            Err(e) => {
                return Err(e);
            },
        };
        let effect = match text_arg_of(&a[4], field) {
            Ok(t) => t,
            Err(e) => {
                return Err(e);
            },
        };
        let outcome = match text_arg_of(&a[5], field) {
            Ok(t) => t,
            Err(e) => {
                return Err(e);
            },
        };
        let note = match text_arg_of(&a[6], field) {
            Ok(t) => t,
            Err(e) => {
                return Err(e);
            },
        };
        let delegated_capabilities = match string_list_arg(&a[7], field) {
            Ok(v) => v,
            Err(e) => {
                return Err(e);
            },
        };
        Ok(WorkOrderEvent { site, operation, lane, capability, effect, outcome, note, delegated_capabilities })
    }
}

/// A work-order event written out reads back as itself.
pub proof fn lemma_event_round_trip(e: EventView)
    ensures
        read_event(event_form(e)) == Ok::<EventView, ProblemView>(e),
{
    let args = seq![
        ExprView::Text(e.site),
        ExprView::Text(e.operation),
        ExprView::Text(e.lane),
        ExprView::Text(e.capability),
        ExprView::Text(e.effect),
        ExprView::Text(e.outcome),
        ExprView::Text(e.note),
        text_list(e.delegated_capabilities),
    ];
    assert(seq![
        v0_view(),
        ExprView::Text(e.site),
        ExprView::Text(e.operation),
        ExprView::Text(e.lane),
        ExprView::Text(e.capability),
        ExprView::Text(e.effect),
        ExprView::Text(e.outcome),
        ExprView::Text(e.note),
        text_list(e.delegated_capabilities),
    ] =~= seq![v0_view()] + args);
    lemma_construct_args_of_form("auto/WorkOrderEvent"@, args);
    lemma_text_list_round_trip(e.delegated_capabilities);
}

/// Events read back from a list of forms, or the first problem.
pub open spec fn read_event_items(items: Seq<ExprView>) -> core::result::Result<Seq<EventView>, ProblemView>
    decreases items.len(),
{
    if items.len() == 0 {
        Ok(Seq::empty())
    } else {
        match read_event_items(items.drop_last()) {
            Err(p) => Err(p),
            Ok(es) => match read_event(items.last()) {
                Err(p) => Err(p),
                Ok(x) => Ok(es.push(x)),
            },
        }
    }
}

proof fn lemma_event_items_error_sticks(items: Seq<ExprView>, k: int)
    requires
        0 <= k <= items.len(),
        read_event_items(items.take(k)) is Err,
    ensures
        read_event_items(items) == read_event_items(items.take(k)),
    decreases items.len(),
{
    if k == items.len() {
        assert(items.take(k) =~= items);
    } else {
        assert(items.drop_last().take(k) =~= items.take(k));
        lemma_event_items_error_sticks(items.drop_last(), k);
    }
}

proof fn lemma_event_items_round_trip(es: Seq<EventView>)
    ensures
        read_event_items(es.map_values(|e: EventView| event_form(e))) == Ok::<Seq<EventView>, ProblemView>(es),
    decreases es.len(),
{
    let items = es.map_values(|e: EventView| event_form(e));
    if es.len() > 0 {
        assert(items.drop_last() =~= es.drop_last().map_values(|e: EventView| event_form(e)));
        lemma_event_items_round_trip(es.drop_last());
        lemma_event_round_trip(es.last());
        assert(es.drop_last().push(es.last()) =~= es);
    } else {
        assert(es =~= Seq::<EventView>::empty());
    }
}

/// The read-construct form of a ledger.
pub open spec fn ledger_form(events: Seq<EventView>) -> ExprView {
    read_construct_view(
        symbol_of_text("auto/WorkOrderLedger"@),
        seq![v0_view(), ExprView::List(events.map_values(|e: EventView| event_form(e)))],
    )
}

/// A ledger read back from its form.
pub open spec fn read_ledger(e: ExprView) -> core::result::Result<Seq<EventView>, ProblemView> {
    match construct_args(e, "auto/WorkOrderLedger"@, 1) {
        Err(p) => Err(p),
        Ok(a) => match a[0] {
            ExprView::List(items) => read_event_items(items),
            other => Err(ProblemView::NotList(other)),
        },
    }
}

fn events_of(items: &[Expr], field: &str) -> (r: core::result::Result<Vec<WorkOrderEvent>, FieldError>)
    ensures
        match read_event_items(expr_views(items@)) {
            Ok(v) => r matches Ok(x) && event_views(x@) == v,
            Err(p) => r matches Err(x) && x@ == (field@, p),
        },
{
    let ghost iv = expr_views(items@);
    let mut out: Vec<WorkOrderEvent> = Vec::new();
    let mut i: usize = 0;
    assert(iv.take(0) =~= Seq::<ExprView>::empty());
    assert(event_views(out@) =~= Seq::<EventView>::empty());
    while i < items.len()
        invariant
            iv == expr_views(items@),
            i <= items@.len(),
            read_event_items(iv.take(i as int)) == Ok::<Seq<EventView>, ProblemView>(event_views(out@)),
        decreases items@.len() - i,
    {
        let ghost t = iv.take(i + 1);
        assert(t.drop_last() =~= iv.take(i as int));
        assert(t.last() == items@[i as int]@);
        match WorkOrderEvent::decode_field_expr(&items[i], field) {
            Ok(x) => {
                let ghost before = out@;
                out.push(x);
                assert(event_views(out@) =~= event_views(before).push(x@));
            },
            Err(e) => {
                proof {
                    lemma_event_items_error_sticks(iv, i + 1);
                }
                return Err(e);
            },
        }
        i = i + 1;
    }
    assert(iv.take(items@.len() as int) =~= iv);
    Ok(out)
}

impl WorkOrderLedger {
    /// Writes the ledger as explicit read-construct data.
    pub fn to_expr(&self) -> (r: Expr)
        ensures
            r@ == ledger_form(event_views(self.events@)),
    {
        let ghost want = event_views(self.events@).map_values(|e: EventView| event_form(e));
        let mut items: Vec<Expr> = Vec::new();
        let mut i: usize = 0;
        while i < self.events.len()
            invariant
                i <= self.events@.len(),
                want == event_views(self.events@).map_values(|e: EventView| event_form(e)),
                expr_views(items@) == want.take(i as int),
            decreases self.events@.len() - i,
        {
            let ghost before = items@;
            items.push(self.events[i].to_expr());
            assert(expr_views(items@) =~= expr_views(before).push(event_form(self.events@[i as int]@)));
            assert(want.take(i + 1) =~= want.take(i as int).push(want[i as int]));
            i = i + 1;
        }
        assert(want.take(self.events@.len() as int) =~= want);
        let args = vec![Expr::Symbol(Symbol::new("v0")), list_expr(items)];
        assert(expr_views(args@) =~= seq![v0_view(), ExprView::List(want)]);
        text_read_construct_expr("auto/WorkOrderLedger", args)
    }

    /// Reads a ledger back from its form.
    pub fn decode_field_expr(expr: &Expr, field: &str) -> (r: core::result::Result<Self, FieldError>)
        ensures
            match read_ledger(expr@) {
                Ok(v) => r matches Ok(x) && event_views(x.events@) == v,
                Err(p) => r matches Err(x) && x@ == (field@, p),
            },
    {
        let a = match read_construct_args(expr, "auto/WorkOrderLedger", field, 1) {
            Ok(a) => a,
            Err(e) => {
                return Err(e);
            },
        };
        match &a[0] {
            Expr::List(items) => {
                proof {
                    crate::expr::lemma_list_view(*items);
                }
                match events_of(items.as_slice(), field) {
                    Ok(events) => Ok(WorkOrderLedger { events }),
                    Err(e) => Err(e),
                }
            },
            other => Err(field_error(field, FieldProblem::NotList(copy_expr(other)))),
        }
    }
}

/// A ledger written out reads back as its events.
pub proof fn lemma_ledger_round_trip(events: Seq<EventView>)
    ensures
        read_ledger(ledger_form(events)) == Ok::<Seq<EventView>, ProblemView>(events),
{
    let args = seq![ExprView::List(events.map_values(|e: EventView| event_form(e)))];
    assert(seq![v0_view(), ExprView::List(events.map_values(|e: EventView| event_form(e)))] =~= seq![v0_view()] + args);
    lemma_construct_args_of_form("auto/WorkOrderLedger"@, args);
    lemma_event_items_round_trip(events);
}

/// The read-construct form of a shop capability profile.
pub open spec fn brand_caps_form(brand: Seq<char>, caps: Seq<Seq<char>>) -> ExprView {
    read_construct_view(symbol_of_text("auto/BrandCaps"@), seq![v0_view(), ExprView::Text(brand), text_list(caps)])
}

/// A shop capability profile read back from its form.
pub open spec fn read_brand_caps(e: ExprView) -> core::result::Result<(Seq<char>, Seq<Seq<char>>), ProblemView> {
    match construct_args(e, "auto/BrandCaps"@, 2) {
        Err(p) => Err(p),
        Ok(a) => match text_arg(a[0]) {
            Err(p) => Err(p),
            Ok(brand) => match read_text_list(a[1]) {
                Err(p) => Err(p),
                Ok(caps) => Ok((brand, caps)),
            },
        },
    }
}

fn cap_texts(caps: &[CapabilityName]) -> (r: Vec<String>)
    ensures
        strs(r@) == cap_views(caps@),
{
    let mut out: Vec<String> = Vec::new();
    let mut i: usize = 0;
    while i < caps.len()
        invariant
            i <= caps@.len(),
            strs(out@) == cap_views(caps@).take(i as int),
        decreases caps@.len() - i,
    {
        let ghost before = out@;
        out.push(caps[i].as_str().to_owned());
        assert(strs(out@) =~= strs(before).push(caps@[i as int]@));
        assert(cap_views(caps@).take(i + 1) =~= cap_views(caps@).take(i as int).push(caps@[i as int]@));
        i = i + 1;
    }
    assert(cap_views(caps@).take(caps@.len() as int) =~= cap_views(caps@));
    out
}

fn cap_names(texts: &[String]) -> (r: Vec<CapabilityName>)
    ensures
        cap_views(r@) == strs(texts@),
{
    let mut out: Vec<CapabilityName> = Vec::new();
    let mut i: usize = 0;
    while i < texts.len()
        invariant
            i <= texts@.len(),
            cap_views(out@) == strs(texts@).take(i as int),
        decreases texts@.len() - i,
    {
        let ghost before = out@;
        out.push(CapabilityName::new(texts[i].as_str()));
        assert(cap_views(out@) =~= cap_views(before).push(texts@[i as int]@));
        assert(strs(texts@).take(i + 1) =~= strs(texts@).take(i as int).push(texts@[i as int]@));
        i = i + 1;
    }
    assert(strs(texts@).take(texts@.len() as int) =~= strs(texts@));
    out
}

/// Writes a shop capability profile as explicit read-construct data.
pub fn brand_caps_expr(site: &BrandCaps) -> (r: Expr)
    ensures
        r@ == brand_caps_form(site.brand@, cap_views(site.capabilities@)),
{
    let texts = cap_texts(site.capabilities.as_slice());
    let args = vec![Expr::Symbol(Symbol::new("v0")), Expr::String(site.brand.clone()), text_list_expr(texts.as_slice())];
    assert(expr_views(args@) =~= seq![v0_view(), ExprView::Text(site.brand@), text_list(cap_views(site.capabilities@))]);
    text_read_construct_expr("auto/BrandCaps", args)
}

/// Reads a shop capability profile back from its form.
pub fn decode_brand_caps(expr: &Expr) -> (r: core::result::Result<BrandCaps, FieldError>)
    ensures
        match read_brand_caps(expr@) {
            Ok(v) => r matches Ok(x) && x.brand@ == v.0 && cap_views(x.capabilities@) == v.1,
            Err(p) => r matches Err(x) && x@ == ("site"@, p),
        },
{
    let a = match read_construct_args(expr, "auto/BrandCaps", "site", 2) {
        Ok(a) => a,
        Err(e) => {
            return Err(e);
        },
    };
    let brand = match text_arg_of(&a[0], "site") {
        Ok(t) => t,
        Err(e) => {
            return Err(e);
        },
    };
    let texts = match string_list_arg(&a[1], "site") {
        Ok(v) => v,
        Err(e) => {
            return Err(e);
        },
    };
    let capabilities = cap_names(texts.as_slice());
    Ok(BrandCaps { brand, capabilities })
}

/// A shop capability profile written out reads back as itself.
pub proof fn lemma_brand_caps_round_trip(brand: Seq<char>, caps: Seq<Seq<char>>)
    ensures
        read_brand_caps(brand_caps_form(brand, caps)) == Ok::<(Seq<char>, Seq<Seq<char>>), ProblemView>((brand, caps)),
{
    let args = seq![ExprView::Text(brand), text_list(caps)];
    assert(seq![v0_view(), ExprView::Text(brand), text_list(caps)] =~= seq![v0_view()] + args);
    lemma_construct_args_of_form("auto/BrandCaps"@, args);
    lemma_text_list_round_trip(caps);
}

/// What a work order says.
pub struct WorkOrderView {
    /// Work-order id.
    pub id: Seq<char>,
    /// Vehicle namespace and key.
    pub vehicle: (Seq<char>, Seq<char>),
    /// Shop brand and capabilities.
    pub site: (Seq<char>, Seq<Seq<char>>),
    /// Ledger events.
    pub events: Seq<EventView>,
    /// Parts cart.
    pub parts: Seq<PartLineView>,
    /// Supplier order status.
    pub order_status: Option<OrderStatusView>,
    /// Invoice export.
    pub invoice: Option<InvoiceView>,
}

/// The view of a work order.
pub open spec fn work_order_view(w: WorkOrder) -> WorkOrderView {
    WorkOrderView {
        id: w.id@,
        vehicle: (w.vehicle.namespace@, w.vehicle.key@),
        site: (w.site.brand@, cap_views(w.site.capabilities@)),
        events: event_views(w.ledger.events@),
        parts: line_views(w.parts@),
        order_status: match w.order_status {
            Some(st) => Some(st@),
            None => None,
        },
        invoice: match w.invoice {
            Some(x) => Some(invoice_view(x)),
            None => None,
        },
    }
}

/// An optional order status written out.
pub open spec fn opt_status_form(o: Option<OrderStatusView>) -> ExprView {
    match o {
        Some(st) => order_status_form(st),
        None => ExprView::Nil,
    }
}

/// An optional invoice written out.
pub open spec fn opt_invoice_form(o: Option<InvoiceView>) -> ExprView {
    match o {
        Some(x) => invoice_form(x),
        None => ExprView::Nil,
    }
}

/// The read-construct form of a work order.
pub open spec fn work_order_form(w: WorkOrderView) -> ExprView {
    read_construct_view(
        symbol_of_text("auto/WorkOrder"@),
        seq![
            v0_view(),
            ExprView::Text(w.id),
            vehicle_construct_view(w.vehicle.0, w.vehicle.1),
            brand_caps_form(w.site.0, w.site.1),
            ledger_form(w.events),
            ExprView::List(w.parts.map_values(|l: PartLineView| part_line_form(l))),
            opt_status_form(w.order_status),
            opt_invoice_form(w.invoice),
        ],
    )
}

/// A result with its problem tagged by the field being read.
pub open spec fn in_field<T>(r: core::result::Result<T, ProblemView>, field: Seq<char>) -> core::result::Result<T, (Seq<char>, ProblemView)> {
    match r {
        Ok(v) => Ok(v),
        Err(p) => Err((field, p)),
    }
}

/// An optional order status read back: `nil` for none.
pub open spec fn read_opt_status(e: ExprView) -> core::result::Result<Option<OrderStatusView>, ProblemView> {
    match e {
        ExprView::Nil => Ok(None),
        other => match read_order_status(other) {
            Ok(st) => Ok(Some(st)),
            Err(p) => Err(p),
        },
    }
}

/// An optional invoice read back: `nil` for none.
pub open spec fn read_opt_invoice(e: ExprView) -> core::result::Result<Option<InvoiceView>, ProblemView> {
    match e {
        ExprView::Nil => Ok(None),
        other => match read_invoice(other) {
            Ok(x) => Ok(Some(x)),
            Err(p) => Err(p),
        },
    }
}

/// A work order read back from its form; each nested value reports its
/// problems under its own field name.
pub open spec fn read_work_order(e: ExprView, field: Seq<char>) -> core::result::Result<WorkOrderView, (Seq<char>, ProblemView)> {
    match in_field(construct_args(e, "auto/WorkOrder"@, 7), field) {
        Err(x) => Err(x),
        Ok(a) => match in_field(text_arg(a[0]), field) {
            Err(x) => Err(x),
            Ok(id) => match in_field(read_vehicle(a[1]), "vehicle"@) {
                Err(x) => Err(x),
                Ok(vehicle) => match in_field(read_brand_caps(a[2]), "site"@) {
                    Err(x) => Err(x),
                    Ok(site) => match in_field(read_ledger(a[3]), field) {
                        Err(x) => Err(x),
                        Ok(events) => match in_field(read_part_lines(a[4]), "parts"@) {
                            Err(x) => Err(x),
                            Ok(parts) => match in_field(read_opt_status(a[5]), "order_status"@) {
                                Err(x) => Err(x),
                                Ok(order_status) => match in_field(read_opt_invoice(a[6]), field) {
                                    Err(x) => Err(x),
                                    Ok(invoice) => Ok(WorkOrderView { id, vehicle, site, events, parts, order_status, invoice }),
                                },
                            },
                        },
                    },
                },
            },
        },
    }
}

fn part_lines_expr(parts: &[PartLine]) -> (r: Expr)
    ensures
        r@ == ExprView::List(line_views(parts@).map_values(|l: PartLineView| part_line_form(l))),
{
    let ghost want = line_views(parts@).map_values(|l: PartLineView| part_line_form(l));
    let mut items: Vec<Expr> = Vec::new();
    let mut i: usize = 0;
    while i < parts.len()
        invariant
            i <= parts@.len(),
            want == line_views(parts@).map_values(|l: PartLineView| part_line_form(l)),
            expr_views(items@) == want.take(i as int),
        decreases parts@.len() - i,
    {
        let ghost before = items@;
        items.push(parts[i].to_expr());
        assert(expr_views(items@) =~= expr_views(before).push(part_line_form(parts@[i as int]@)));
        assert(want.take(i + 1) =~= want.take(i as int).push(want[i as int]));
        i = i + 1;
    }
    assert(want.take(parts@.len() as int) =~= want);
    list_expr(items)
}

fn decode_optional_invoice(expr: &Expr, field: &str) -> (r: core::result::Result<Option<LedgerInvoiceExport>, FieldError>)
    ensures
        match read_opt_invoice(expr@) {
            Ok(v) => r matches Ok(x) && match x {
                Some(inv) => v == Some(invoice_view(inv)),
                None => v is None,
            },
            Err(p) => r matches Err(x) && x@ == (field@, p),
        },
{
    match expr {
        Expr::Nil => Ok(None),
        other => match LedgerInvoiceExport::decode_field_expr(other, field) {
            Ok(x) => Ok(Some(x)),
            Err(e) => Err(e),
        },
    }
}

impl WorkOrder {
    /// Writes the work order as explicit read-construct data.
    pub fn to_expr(&self) -> (r: Expr)
        ensures
            r@ == work_order_form(work_order_view(*self)),
    {
        let status = match &self.order_status {
            Some(st) => st.to_expr(),
            None => Expr::Nil,
        };
        let invoice = match &self.invoice {
            Some(x) => x.to_expr(),
            None => Expr::Nil,
        };
        let args = vec![
            Expr::Symbol(Symbol::new("v0")),
            Expr::String(self.id.clone()),
            vehicle_read_construct(&self.vehicle),
            brand_caps_expr(&self.site),
            self.ledger.to_expr(),
            part_lines_expr(self.parts.as_slice()),
            status,
            invoice,
        ];
        let ghost w = work_order_view(*self);
        assert(expr_views(args@) =~= seq![
            v0_view(),
            ExprView::Text(w.id),
            vehicle_construct_view(w.vehicle.0, w.vehicle.1),
            brand_caps_form(w.site.0, w.site.1),
            ledger_form(w.events),
            ExprView::List(w.parts.map_values(|l: PartLineView| part_line_form(l))),
            opt_status_form(w.order_status),
            opt_invoice_form(w.invoice),
        ]);
        text_read_construct_expr("auto/WorkOrder", args)
    }

    /// Reads a work order back from its form.
    pub fn decode_field_expr(expr: &Expr, field: &str) -> (r: core::result::Result<Self, FieldError>)
        ensures
            match read_work_order(expr@, field@) {
                Ok(v) => r matches Ok(x) && work_order_view(x) == v,
                Err(fp) => r matches Err(x) && x@ == fp,
            },
    {
        let a = match read_construct_args(expr, "auto/WorkOrder", field, 7) {
            Ok(a) => a,
            Err(e) => {
                return Err(e);
            },
        };
        let id = match text_arg_of(&a[0], field) {
            Ok(t) => t,
            Err(e) => {
                return Err(e);
            },
        };
        let vehicle = match decode_vehicle(&a[1]) {
            Ok(v) => v,
            Err(e) => {
                return Err(e);
            },
        };
        let site = match decode_brand_caps(&a[2]) {
            Ok(v) => v,
            Err(e) => {
                return Err(e);
            },
        };
        let ledger = match WorkOrderLedger::decode_field_expr(&a[3], field) {
            Ok(v) => v,
            Err(e) => {
                return Err(e);
            },
        };
        let parts = match decode_part_lines(&a[4]) {
            Ok(v) => v,
            Err(e) => {
                return Err(e);
            },
        };
        let order_status = match decode_optional_order_status(&a[5]) {
            Ok(v) => v,
            Err(e) => {
                return Err(e);
            },
        };
        let invoice = match decode_optional_invoice(&a[6], field) {
            Ok(v) => v,
            Err(e) => {
                return Err(e);
            },
        };
        Ok(WorkOrder { id, vehicle, site, ledger, parts, order_status, invoice })
    }
}

/// A work order written out reads back as itself, when its order status
/// names a known supplier.
pub proof fn lemma_work_order_round_trip(w: WorkOrderView, field: Seq<char>)
    requires
        w.order_status matches Some(st) ==> parse_supplier(st.1) is Some,
    ensures
        read_work_order(work_order_form(w), field) == Ok::<WorkOrderView, (Seq<char>, ProblemView)>(w),
{
    let args = seq![
        ExprView::Text(w.id),
        vehicle_construct_view(w.vehicle.0, w.vehicle.1),
        brand_caps_form(w.site.0, w.site.1),
        ledger_form(w.events),
        ExprView::List(w.parts.map_values(|l: PartLineView| part_line_form(l))),
        opt_status_form(w.order_status),
        opt_invoice_form(w.invoice),
    ];
    assert(seq![
        v0_view(),
        ExprView::Text(w.id),
        vehicle_construct_view(w.vehicle.0, w.vehicle.1),
        brand_caps_form(w.site.0, w.site.1),
        ledger_form(w.events),
        ExprView::List(w.parts.map_values(|l: PartLineView| part_line_form(l))),
        opt_status_form(w.order_status),
        opt_invoice_form(w.invoice),
    ] =~= seq![v0_view()] + args);
    lemma_construct_args_of_form("auto/WorkOrder"@, args);
    lemma_vehicle_round_trip(w.vehicle.0, w.vehicle.1);
    lemma_brand_caps_round_trip(w.site.0, w.site.1);
    lemma_ledger_round_trip(w.events);
    lemma_part_lines_round_trip(w.parts);
    if let Some(st) = w.order_status {
        lemma_order_status_round_trip(st);
    }
    if let Some(x) = w.invoice {
        lemma_invoice_round_trip(x);
    }
}

/// What a conformance report says.
pub struct ReportView {
    /// Whether the work order conformed.
    pub passed: bool,
    /// The work order.
    pub work_order: WorkOrderView,
    /// Sites visited.
    pub site_count: u32,
    /// Sites expected.
    pub expected_site_count: u32,
    /// Accepted events.
    pub accepted_count: u32,
    /// Denied events.
    pub denied_count: u32,
    /// Delegation violations.
    pub delegation_violations: Seq<Seq<char>>,
    /// Other issues.
    pub issues: Seq<Seq<char>>,
}

/// The view of a conformance report.
pub open spec fn report_view(r: ConformanceReport) -> ReportView {
    ReportView {
        passed: r.passed,
        work_order: work_order_view(r.work_order),
        site_count: r.site_count,
        expected_site_count: r.expected_site_count,
        accepted_count: r.accepted_count,
        denied_count: r.denied_count,
        delegation_violations: strs(r.delegation_violations@),
        issues: strs(r.issues@),
    }
}

/// The read-construct form of a conformance report.
pub open spec fn report_form(r: ReportView) -> ExprView {
    read_construct_view(
        symbol_of_text("auto/ConformanceReport"@),
        seq![
            v0_view(),
            ExprView::Bool(r.passed),
            work_order_form(r.work_order),
            core_number(decimal(r.site_count as nat)),
            core_number(decimal(r.expected_site_count as nat)),
            core_number(decimal(r.accepted_count as nat)),
            core_number(decimal(r.denied_count as nat)),
            text_list(r.delegation_violations),
            text_list(r.issues),
        ],
    )
}

/// A conformance report read back from its form.
pub open spec fn read_report(e: ExprView, field: Seq<char>) -> core::result::Result<ReportView, (Seq<char>, ProblemView)> {
    match in_field(construct_args(e, "auto/ConformanceReport"@, 8), field) {
        Err(x) => Err(x),
        Ok(a) => match in_field(bool_arg(a[0]), field) {
            Err(x) => Err(x),
            Ok(passed) => match read_work_order(a[1], field) {
                Err(x) => Err(x),
                Ok(work_order) => match in_field(u32_arg(a[2]), field) {
                    Err(x) => Err(x),
                    Ok(site_count) => match in_field(u32_arg(a[3]), field) {
                        Err(x) => Err(x),
                        Ok(expected_site_count) => match in_field(u32_arg(a[4]), field) {
                            Err(x) => Err(x),
                            Ok(accepted_count) => match in_field(u32_arg(a[5]), field) {
                                Err(x) => Err(x),
                                Ok(denied_count) => match in_field(read_text_list(a[6]), field) {
                                    Err(x) => Err(x),
                                    Ok(delegation_violations) => match in_field(read_text_list(a[7]), field) {
                                        Err(x) => Err(x),
                                        Ok(issues) => Ok(
                                            ReportView {
                                                passed,
                                                work_order,
                                                site_count: site_count as u32,
                                                expected_site_count: expected_site_count as u32,
                                                accepted_count: accepted_count as u32,
                                                denied_count: denied_count as u32,
                                                delegation_violations,
                                                issues,
                                            },
                                        ),
                                    },
                                },
                            },
                        },
                    },
                },
            },
        },
    }
}

fn core_number_expr(v: u32) -> (r: Expr)
    ensures
        r@ == core_number(decimal(v as nat)),
{
    Expr::Number(NumberLiteral { domain: Symbol::qualified("core", "Number"), canonical: decimal_string(v as u64) })
}

impl ConformanceReport {
    /// Writes the report as explicit read-construct data.
    pub fn to_expr(&self) -> (r: Expr)
        ensures
            r@ == report_form(report_view(*self)),
    {
        let args = vec![
            Expr::Symbol(Symbol::new("v0")),
            Expr::Bool(self.passed),
            self.work_order.to_expr(),
            core_number_expr(self.site_count),
            core_number_expr(self.expected_site_count),
            core_number_expr(self.accepted_count),
            core_number_expr(self.denied_count),
            text_list_expr(self.delegation_violations.as_slice()),
            text_list_expr(self.issues.as_slice()),
        ];
        let ghost r = report_view(*self);
        assert(expr_views(args@) =~= seq![
            v0_view(),
            ExprView::Bool(r.passed),
            work_order_form(r.work_order),
            core_number(decimal(r.site_count as nat)),
            core_number(decimal(r.expected_site_count as nat)),
            core_number(decimal(r.accepted_count as nat)),
            core_number(decimal(r.denied_count as nat)),
            text_list(r.delegation_violations),
            text_list(r.issues),
        ]);
        text_read_construct_expr("auto/ConformanceReport", args)
    }

    /// Reads a report back from its form.
    pub fn decode_field_expr(expr: &Expr, field: &str) -> (r: core::result::Result<Self, FieldError>)
        ensures
            match read_report(expr@, field@) {
                Ok(v) => r matches Ok(x) && report_view(x) == v,
                Err(fp) => r matches Err(x) && x@ == fp,
            },
    {
        let a = match read_construct_args(expr, "auto/ConformanceReport", field, 8) {
            Ok(a) => a,
            Err(e) => {
                return Err(e);
            },
        };
        let passed = match bool_arg_of(&a[0], field) {
            Ok(b) => b,
            Err(e) => {
                return Err(e);
            },
        };
        let work_order = match WorkOrder::decode_field_expr(&a[1], field) {
            Ok(w) => w,
            Err(e) => {
                return Err(e);
            },
        };
        let site_count = match crate::citizen::u32_field(&a[2], field) {
            Ok(v) => v,
            Err(e) => {
                return Err(e);
            },
        };
        let expected_site_count = match crate::citizen::u32_field(&a[3], field) {
            Ok(v) => v,
            Err(e) => {
                return Err(e);
            },
        };
        let accepted_count = match crate::citizen::u32_field(&a[4], field) {
            Ok(v) => v,
            Err(e) => {
                return Err(e);
            },
        };
        let denied_count = match crate::citizen::u32_field(&a[5], field) {
            Ok(v) => v,
            Err(e) => {
                return Err(e);
            },
        };
        let delegation_violations = match string_list_arg(&a[6], field) {
            Ok(v) => v,
            Err(e) => {
                return Err(e);
            },
        };
        let issues = match string_list_arg(&a[7], field) {
            Ok(v) => v,
            Err(e) => {
                return Err(e);
            },
        };
        Ok(
            ConformanceReport {
                passed,
                work_order,
                site_count,
                expected_site_count,
                accepted_count,
                denied_count,
                delegation_violations,
                issues,
            },
        )
    }
}

/// A conformance report written out reads back as itself, when its work
/// order's status names a known supplier.
pub proof fn lemma_report_round_trip(r: ReportView, field: Seq<char>)
    requires
        r.work_order.order_status matches Some(st) ==> parse_supplier(st.1) is Some,
    ensures
        read_report(report_form(r), field) == Ok::<ReportView, (Seq<char>, ProblemView)>(r),
{
    let args = seq![
        ExprView::Bool(r.passed),
        work_order_form(r.work_order),
        core_number(decimal(r.site_count as nat)),
        core_number(decimal(r.expected_site_count as nat)),
        core_number(decimal(r.accepted_count as nat)),
        core_number(decimal(r.denied_count as nat)),
        text_list(r.delegation_violations),
        text_list(r.issues),
    ];
    assert(seq![
        v0_view(),
        ExprView::Bool(r.passed),
        work_order_form(r.work_order),
        core_number(decimal(r.site_count as nat)),
        core_number(decimal(r.expected_site_count as nat)),
        core_number(decimal(r.accepted_count as nat)),
        core_number(decimal(r.denied_count as nat)),
        text_list(r.delegation_violations),
        text_list(r.issues),
    ] =~= seq![v0_view()] + args);
    lemma_construct_args_of_form("auto/ConformanceReport"@, args);
    lemma_work_order_round_trip(r.work_order, field);
    lemma_u32_round_trip(r.site_count);
    lemma_u32_round_trip(r.expected_site_count);
    lemma_u32_round_trip(r.accepted_count);
    lemma_u32_round_trip(r.denied_count);
    lemma_text_list_round_trip(r.delegation_violations);
    lemma_text_list_round_trip(r.issues);
}

} // verus!
