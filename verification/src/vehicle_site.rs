//! The vehicle-identity site: records and bridge contracts written as
//! expressions, and the site that answers lookup requests.

use vstd::prelude::*;

use crate::controls::{ControlChecks, RequestControls, control_problem, validate_controls};
use crate::domain::strs;
use crate::expr::{Expr, ExprView, dict_expr, entry_views, expr_views, key, key_view, list_expr, string_field};
use crate::kernel::{CapabilitySet, Error, Result};
use crate::read_construct::{vehicle_construct_view, vehicle_read_construct};
use crate::uds_expr::text_entry;
use crate::vehicle::{
    LiveVehicleBridge, ModeledVehicleBridge, VehicleBridgeContract, VehicleLookupRouter, VehicleRecord,
    VehicleRecordView, VehicleSource, fixture_records, record_matches, unconfigured_message, vehicle_source_label,
};
use crate::vehicle_request::{LookupView, parse_lookup};

verus! {

/// The map a record is written as: the vehicle's read-construct form, the
/// source, market, make, model and model year, then the plate and the VIN
/// when known.
pub open spec fn record_expr_view(r: VehicleRecordView) -> ExprView {
    let base = seq![
        (key_view("vehicle"@), vehicle_construct_view(r.namespace, r.key)),
        text_entry("source"@, vehicle_source_label(r.source)),
        text_entry("market"@, r.market),
        text_entry("make"@, r.make),
        text_entry("model"@, r.model),
        text_entry("model-year"@, r.model_year),
    ];
    let with_plate = match r.plate {
        Some(p) => base.push(text_entry("plate"@, p)),
        None => base,
    };
    ExprView::Dict(
        match r.vin {
            Some(v) => with_plate.push(text_entry("vin"@, v)),
            None => with_plate,
        },
    )
}

impl VehicleRecord {
    /// Writes the record as a map expression.
    pub fn to_expr(&self) -> (r: Expr)
        ensures
            r@ == record_expr_view(self@),
    {
        let (k1, v1) = string_field("source", self.source.as_str());
        let (k2, v2) = string_field("market", self.market.as_str());
        let (k3, v3) = string_field("make", self.make.as_str());
        let (k4, v4) = string_field("model", self.model.as_str());
        let (k5, v5) = string_field("model-year", self.model_year.as_str());
        let mut fields = vec![
            (key("vehicle"), vehicle_read_construct(&self.vehicle)),
            (k1, v1),
            (k2, v2),
            (k3, v3),
            (k4, v4),
            (k5, v5),
        ];
        let ghost base = entry_views(fields@);
        let ghost rv = self@;
        assert(base =~= seq![
            (key_view("vehicle"@), vehicle_construct_view(rv.namespace, rv.key)),
            text_entry("source"@, vehicle_source_label(rv.source)),
            text_entry("market"@, rv.market),
            text_entry("make"@, rv.make),
            text_entry("model"@, rv.model),
            text_entry("model-year"@, rv.model_year),
        ]);
        let ghost with_plate = match rv.plate {
            Some(p) => base.push(text_entry("plate"@, p)),
            None => base,
        };
        match &self.plate {
            Some(p) => {
                let (kp, vp) = string_field("plate", p.as_str());
                fields.push((kp, vp));
            },
            None => {},
        }
        assert(entry_views(fields@) =~= with_plate);
        match &self.vin {
            Some(v) => {
                let (kv, vv) = string_field("vin", v.as_str());
                fields.push((kv, vv));
            },
            None => {},
        }
        assert(entry_views(fields@) =~= match rv.vin {
            Some(v) => with_plate.push(text_entry("vin"@, v)),
            None => with_plate,
        });
        dict_expr(fields)
    }
}

/// The map a bridge contract is written as.
pub open spec fn contract_expr_view(
    source: VehicleSource,
    provider: Seq<char>,
    operations: Seq<Seq<char>>,
    required: Seq<char>,
    boundary: Seq<char>,
) -> ExprView {
    ExprView::Dict(
        seq![
            text_entry("source"@, vehicle_source_label(source)),
            text_entry("provider"@, provider),
            (key_view("operations"@), ExprView::List(operations.map_values(|o: Seq<char>| ExprView::Text(o)))),
            text_entry("required-capability"@, required),
            text_entry("host-boundary"@, boundary),
        ],
    )
}

impl VehicleBridgeContract {
    /// Writes the contract as a map expression.
    pub fn to_expr(&self) -> (r: Expr)
        ensures
            r@ == contract_expr_view(
                self.source,
                self.provider@,
                strs(self.operations@),
                self.required_capability@,
                self.host_boundary@,
            ),
    {
        let ghost want = strs(self.operations@).map_values(|o: Seq<char>| ExprView::Text(o));
        let mut items: Vec<Expr> = Vec::new();
        let mut i: usize = 0;
        while i < self.operations.len()
            invariant
                i <= self.operations@.len(),
                want == strs(self.operations@).map_values(|o: Seq<char>| ExprView::Text(o)),
                expr_views(items@) == want.take(i as int),
            decreases self.operations@.len() - i,
        {
            let ghost before = items@;
            items.push(Expr::String(self.operations[i].clone()));
            assert(expr_views(items@) =~= expr_views(before).push(ExprView::Text(self.operations@[i as int]@)));
            assert(want.take(i + 1) =~= want.take(i as int).push(want[i as int]));
            i = i + 1;
        }
        assert(want.take(self.operations@.len() as int) =~= want);
        let (k1, v1) = string_field("source", self.source.as_str());
        let (k2, v2) = string_field("provider", self.provider.as_str());
        let ops = list_expr(items);
        let (k4, v4) = string_field("required-capability", self.required_capability.as_str());
        let (k5, v5) = string_field("host-boundary", self.host_boundary.as_str());
        let fields = vec![(k1, v1), (k2, v2), (key("operations"), ops), (k4, v4), (k5, v5)];
        assert(entry_views(fields@) =~= seq![
            text_entry("source"@, vehicle_source_label(self.source)),
            text_entry("provider"@, self.provider@),
            (key_view("operations"@), ExprView::List(want)),
            text_entry("required-capability"@, self.required_capability@),
            text_entry("host-boundary"@, self.host_boundary@),
        ]);
        dict_expr(fields)
    }
}

/// The control checks of the vehicle-identity site.
pub fn vehicle_checks() -> (r: ControlChecks)
    ensures
        r.label@ == "auto vehicle request"@,
        r.refuse_deadline,
        r.refuse_zero_limit,
{
    ControlChecks { label: "auto vehicle request", refuse_deadline: true, refuse_zero_limit: true }
}

/// Whether record `rec` answers lookup `q`: same market, and the
/// requested key equal to the record's plate or VIN.
pub open spec fn answers(rec: VehicleRecordView, q: LookupView) -> bool {
    &&& rec.market == q.market
    &&& match q.kind {
        crate::vehicle::VehicleLookupKind::Plate => rec.plate == Some(q.key),
        crate::vehicle::VehicleLookupKind::Vin => rec.vin == Some(q.key),
    }
}

/// What a site over `records` replies to a lookup, given the caller's
/// held capabilities: the first answering record written out, or the
/// refusal.
pub open spec fn lookup_reply(records: Seq<VehicleRecordView>, held: Set<Seq<char>>, q: LookupView, r: Result<Expr>) -> bool {
    if q.source == VehicleSource::Modeled {
        if exists|i: int| 0 <= i < records.len() && answers(#[trigger] records[i], q) {
            exists|i: int| {
                &&& 0 <= i < records.len()
                &&& answers(#[trigger] records[i], q)
                &&& forall|j: int| 0 <= j < i ==> !answers(#[trigger] records[j], q)
                &&& r matches Ok(e) && e@ == record_expr_view(records[i])
            }
        } else {
            r matches Err(Error::Eval(msg)) && msg@ == "no modeled vehicle for "@ + q.key
        }
    } else if !held.contains("net/http"@) {
        r matches Err(Error::CapabilityDenied { capability: c }) && c@ == "net/http"@
    } else {
        r matches Err(Error::Eval(msg)) && msg@ == unconfigured_message(q.source)
    }
}

/// The vehicle-identity site: lookups answered through a router.
#[derive(Clone, Debug)]
pub struct VehicleIdentityFabric {
    router: VehicleLookupRouter,
}

impl View for VehicleIdentityFabric {
    type V = Seq<VehicleRecordView>;

    closed spec fn view(&self) -> Seq<VehicleRecordView> {
        self.router@
    }
}

impl Default for VehicleIdentityFabric {
    fn default() -> (r: Self)
        ensures
            r@ == fixture_records(),
    {
        Self::fixture()
    }
}

impl VehicleIdentityFabric {
    /// Builds a site over a router.
    pub fn new(router: VehicleLookupRouter) -> (r: Self)
        ensures
            r@ == router@,
    {
        VehicleIdentityFabric { router }
    }

    /// Builds the site over the synthetic fixture records.
    pub fn fixture() -> (r: Self)
        ensures
            r@ == fixture_records(),
    {
        Self::new(VehicleLookupRouter::new(ModeledVehicleBridge::fixture(), LiveVehicleBridge))
    }

    /// Answers an evaluation request: the controls are checked, the lookup
    /// parsed, then answered through the router and written out.
    pub fn answer(&self, controls: &RequestControls, held: &CapabilitySet, expr: &Expr) -> (r: Result<Expr>)
        ensures
            control_problem("auto vehicle request"@, true, true, *controls) matches Some(m) ==> (r matches Err(
                Error::Eval(x),
            ) && x@ == m),
            control_problem("auto vehicle request"@, true, true, *controls) is None ==> match parse_lookup(expr@) {
                Err(m) => r matches Err(Error::Eval(x)) && x@ == m,
                Ok(q) => lookup_reply(self@, held@, q, r),
            },
    {
        proof {
            let v = self@;
            assert(v == self.router@);
        }
        let checks = vehicle_checks();
        match validate_controls(&checks, controls) {
            Ok(()) => {},
            Err(e) => {
                return Err(e);
            },
        }
        let request = match crate::vehicle::VehicleLookupRequest::parse(expr) {
            Ok(q) => q,
            Err(e) => {
                return Err(e);
            },
        };
        let ghost q = request@;
        let found = self.router.lookup(held, &request);
        proof {
            assert forall|rec: VehicleRecordView| record_matches(rec, request) == answers(rec, q) by {}
        }
        match found {
            Ok(rec) => {
                let out = rec.to_expr();
                Ok(out)
            },
            Err(e) => Err(e),
        }
    }
}

/// The written contract of a live source.
pub open spec fn live_contract_view(source: VehicleSource, provider: Seq<char>) -> ExprView {
    contract_expr_view(
        source,
        provider,
        seq!["vehicle/by-plate"@, "vehicle/by-vin"@],
        "net/http"@,
        crate::vehicle::live_boundary(),
    )
}

/// The value the vehicle-identity library exports as its contract
/// catalog: every live source's contract, written out.
pub fn auto_vehicle_contracts_value() -> (r: Expr)
    ensures
        r@ == ExprView::List(
            seq![
                live_contract_view(VehicleSource::HaynesPro, "HaynesPro"@),
                live_contract_view(VehicleSource::BiluppgifterSe, "biluppgifter.se"@),
            ],
        ),
{
    let contracts = crate::vehicle::vehicle_bridge_contracts();
    let first = contracts[0].to_expr();
    let second = contracts[1].to_expr();
    let items = vec![first, second];
    assert(expr_views(items@) =~= seq![
        live_contract_view(VehicleSource::HaynesPro, "HaynesPro"@),
        live_contract_view(VehicleSource::BiluppgifterSe, "biluppgifter.se"@),
    ]);
    list_expr(items)
}

} // verus!
