//! The parts site: catalog lookups answered from a modeled directory, and
//! supplier orders handed to the effect gate, then recorded once accepted.

use vstd::prelude::*;

use crate::catalog::{CatalogValue, PartsDir, PartsDirView, epc_view, modeled_epc_dir, path_reply};
use crate::controls::{ControlChecks, RequestControls, control_problem, validate_controls};
use crate::domain::strs;
use crate::expr::Expr;
use crate::kernel::{Error, Result};
use crate::parts::{
    ModeledOrderLedger, OrderStatus, OrderStatusView, PartLine, PartLineView, Supplier, line_views, order_problem,
    validate_lines,
};
use crate::parts_request::{PartsRequest, PartsRequestView, parse_parts, parse_parts_request, text_views};

verus! {

/// What the site does with a request.
#[derive(Debug)]
pub enum PartsAction {
    /// Answer with what the catalog path reads as.
    Catalog(CatalogValue),
    /// Hand the order to the effect gate; the supplier answers once the
    /// gate lets it through.
    PlaceOrder {
        /// Supplier mode.
        supplier: Supplier,
        /// Validated order lines.
        lines: Vec<PartLine>,
    },
}

/// The control checks of the parts site: deadlines are refused, answer
/// limits are not looked at.
pub fn parts_checks() -> (r: ControlChecks)
    ensures
        r.label@ == "auto parts request"@,
        r.refuse_deadline,
        !r.refuse_zero_limit,
{
    ControlChecks { label: "auto parts request", refuse_deadline: true, refuse_zero_limit: false }
}

/// What the site answers to a parsed request over directory `d`.
pub open spec fn parts_reply(d: PartsDirView, q: PartsRequestView, r: Result<PartsAction>) -> bool {
    match q {
        PartsRequestView::CatalogGet(path) => match r {
            Ok(PartsAction::Catalog(v)) => path_reply(d, path, Ok::<CatalogValue, Error>(v)),
            Ok(PartsAction::PlaceOrder { .. }) => false,
            Err(e) => path_reply(d, path, Err::<CatalogValue, Error>(e)),
        },
        PartsRequestView::Order(supplier, lines) => match order_problem(lines) {
            Some(m) => r matches Err(Error::Eval(x)) && x@ == m,
            None => r matches Ok(PartsAction::PlaceOrder { supplier: s, lines: ls }) && s == supplier && line_views(ls@) == lines,
        },
    }
}

/// The modeled parts site: one catalog directory and the ledger of
/// accepted orders.
pub struct AutoPartsFabric {
    catalog: PartsDir,
    order_ledger: ModeledOrderLedger,
}

impl View for AutoPartsFabric {
    type V = (PartsDirView, Seq<OrderStatusView>);

    closed spec fn view(&self) -> (PartsDirView, Seq<OrderStatusView>) {
        (self.catalog@, self.order_ledger@)
    }
}

impl AutoPartsFabric {
    /// Builds a site over a catalog and an order ledger.
    pub fn new(catalog: PartsDir, order_ledger: ModeledOrderLedger) -> (r: Self)
        ensures
            r@ == (catalog@, order_ledger@),
    {
        AutoPartsFabric { catalog, order_ledger }
    }

    /// Builds the site over the modeled EPC catalog with an empty ledger.
    pub fn fixture() -> (r: Self)
        ensures
            r@ == (epc_view(), Seq::<OrderStatusView>::empty()),
    {
        Self::new(modeled_epc_dir(), ModeledOrderLedger::new())
    }

    /// Returns the modeled order ledger.
    pub fn order_ledger(&self) -> (r: &ModeledOrderLedger)
        ensures
            r@ == self@.1,
    {
        &self.order_ledger
    }

    /// Returns the catalog directory.
    pub fn catalog(&self) -> (r: &PartsDir)
        ensures
            r@ == self@.0,
    {
        &self.catalog
    }

    /// Decides what a request asks of the site: the controls are checked
    /// and the request parsed; a catalog path is read, and an order's lines
    /// are validated before it goes to the effect gate.
    pub fn answer(&self, controls: &RequestControls, expr: &Expr) -> (r: Result<PartsAction>)
        ensures
            control_problem("auto parts request"@, true, false, *controls) matches Some(m) ==> (r matches Err(
                Error::Eval(x),
            ) && x@ == m),
            control_problem("auto parts request"@, true, false, *controls) is None ==> match parse_parts(expr@) {
                Err(m) => r matches Err(Error::Eval(x)) && x@ == m,
                Ok(q) => parts_reply(self@.0, q, r),
            },
    {
        let checks = parts_checks();
        match validate_controls(&checks, controls) {
            Ok(()) => {},
            Err(e) => {
                return Err(e);
            },
        }
        let request = match parse_parts_request(expr) {
            Ok(q) => q,
            Err(e) => {
                return Err(e);
            },
        };
        match request {
            PartsRequest::CatalogGet { path } => {
                assert(strs(path@) =~= text_views(path@));
                match self.catalog.get_path(path.as_slice()) {
                    Ok(v) => Ok(PartsAction::Catalog(v)),
                    Err(e) => Err(e),
                }
            },
            PartsRequest::Order { supplier, lines } => {
                match validate_lines(lines.as_slice()) {
                    Ok(()) => {},
                    Err(e) => {
                        return Err(e);
                    },
                }
                Ok(PartsAction::PlaceOrder { supplier, lines })
            },
        }
    }

    /// Records the status of an order the supplier accepted.
    pub fn record_order(&mut self, status: OrderStatus)
        ensures
            final(self)@ == (old(self)@.0, old(self)@.1.push(status@)),
    {
        self.order_ledger.push(status);
    }
}

} // verus!
