//! Request expressions of the vehicle-identity site: `by-plate` and
//! `by-vin` lookups written as calls, lists, vectors or maps, read into a
//! normalized lookup request.

use vstd::prelude::*;

use crate::expr::{Expr, ExprView, Symbol, expr_views, qualified_text};
use crate::kernel::{Error, Result};
use crate::request::{
    entry_fields, field_views, keyed_args, keyed_fields, keyed_expr, keyed_view, lookup, lookup_field, map_args,
    pair_views,
};
use crate::text::{chars_of, push_str, str_eq, string_of, trim, upper_seq};
use crate::vehicle::{
    VehicleLookupKind, VehicleLookupRequest, VehicleSource, parse_vehicle_source, plate_result, vehicle_source_label,
    vin_result,
};

verus! {

/// What a lookup request says: source, key family, normalized key and
/// market.
pub struct LookupView {
    /// Source to ask.
    pub source: VehicleSource,
    /// Key family.
    pub kind: VehicleLookupKind,
    /// Normalized key.
    pub key: Seq<char>,
    /// Trimmed, uppercased market.
    pub market: Seq<char>,
}

impl View for VehicleLookupRequest {
    type V = LookupView;

    open spec fn view(&self) -> LookupView {
        LookupView { source: self.source, kind: self.kind, key: self.key@, market: self.market@ }
    }
}

/// The text, or the default when absent.
pub open spec fn or_else(o: Option<Seq<char>>, d: Seq<char>) -> Seq<char> {
    match o {
        Some(t) => t,
        None => d,
    }
}

/// The refusal of a request without field `name`.
pub open spec fn missing_lookup_field(name: Seq<char>) -> Seq<char> {
    "missing vehicle lookup field "@ + name
}

/// What a plate lookup for `source`, `plate` and `market` gives.
pub open spec fn plate_outcome(source: VehicleSource, plate: Seq<char>, market: Seq<char>) -> core::result::Result<LookupView, Seq<char>> {
    match plate_result(plate, market) {
        Ok(k) => Ok(LookupView { source, kind: VehicleLookupKind::Plate, key: k, market: upper_seq(trim(market)) }),
        Err(m) => Err(m),
    }
}

/// What a VIN lookup for `source`, `vin` and `market` gives.
pub open spec fn vin_outcome(source: VehicleSource, vin: Seq<char>, market: Seq<char>) -> core::result::Result<LookupView, Seq<char>> {
    match vin_result(vin) {
        Ok(k) => Ok(LookupView { source, kind: VehicleLookupKind::Vin, key: k, market: upper_seq(trim(market)) }),
        Err(m) => Err(m),
    }
}

/// The lookup an operation and its fields ask for: the source (modeled by
/// default) is read first, then the market (`SE` by default), then the key
/// that the operation names.
pub open spec fn lookup_from_fields(op: Seq<char>, fs: Seq<(Seq<char>, Seq<char>)>) -> core::result::Result<LookupView, Seq<char>> {
    match parse_vehicle_source(or_else(lookup(fs, "source"@), "modeled"@)) {
        Err(n) => Err("unknown vehicle lookup source "@ + n),
        Ok(source) => {
            let market = or_else(lookup(fs, "market"@), "SE"@);
            if op == "vehicle/by-plate"@ || op == "auto/vehicle/by-plate"@ {
                match lookup(fs, "plate"@) {
                    None => Err(missing_lookup_field("plate"@)),
                    Some(plate) => plate_outcome(source, plate, market),
                }
            } else if op == "vehicle/by-vin"@ || op == "auto/vehicle/by-vin"@ {
                match lookup(fs, "vin"@) {
                    None => Err(missing_lookup_field("vin"@)),
                    Some(vin) => vin_outcome(source, vin, market),
                }
            } else {
                Err("unsupported vehicle lookup operation "@ + op)
            }
        },
    }
}

/// Refusal of an odd argument count.
pub open spec fn pairs_refusal() -> Seq<char> {
    "vehicle lookup arguments must be key/value pairs"@
}

/// Refusal of a key that is not a symbol or string.
pub open spec fn key_refusal() -> Seq<char> {
    "vehicle lookup field key must be a symbol or string"@
}

/// Refusal of a value that is not a string or symbol.
pub open spec fn value_refusal() -> Seq<char> {
    "vehicle lookup field value must be a string or symbol"@
}

/// The operation an operator expression names.
pub open spec fn operator_text(e: ExprView) -> core::result::Result<Seq<char>, Seq<char>> {
    match e {
        ExprView::Sym(s) => Ok(qualified_text(s)),
        _ => Err("vehicle lookup operator must be a symbol"@),
    }
}

/// The lookup an operator and keyword arguments ask for.
pub open spec fn lookup_from_call(operator: ExprView, args: Seq<ExprView>) -> core::result::Result<LookupView, Seq<char>> {
    match operator_text(operator) {
        Err(m) => Err(m),
        Ok(op) => match keyed_fields(args, pairs_refusal(), key_refusal(), value_refusal()) {
            Err(m) => Err(m),
            Ok(fs) => lookup_from_fields(op, fs),
        },
    }
}

/// The lookup a request expression asks for, or the refusal text.
pub open spec fn parse_lookup(e: ExprView) -> core::result::Result<LookupView, Seq<char>> {
    match e {
        ExprView::Call(operator, args) => lookup_from_call(*operator, args),
        ExprView::List(items) => if items.len() == 0 {
            Err("empty vehicle lookup request"@)
        } else {
            lookup_from_call(items[0], items.drop_first())
        },
        ExprView::Vector(items) => if items.len() == 0 {
            Err("empty vehicle lookup request"@)
        } else {
            lookup_from_call(items[0], items.drop_first())
        },
        ExprView::Dict(es) => match entry_fields(es, key_refusal(), value_refusal()) {
            Err(m) => Err(m),
            Ok(fs) => match lookup(fs, "op"@) {
                None => Err(missing_lookup_field("op"@)),
                Some(op) => lookup_from_fields(op, fs),
            },
        },
        _ => Err("vehicle lookup request must be a call, list, vector, or map"@),
    }
}

fn lookup_error(text: &str) -> (e: Error)
    ensures
        e matches Error::Eval(m) && m@ == text@,
{
    Error::Eval(text.to_owned())
}

fn missing_error(name: &str) -> (e: Error)
    ensures
        e matches Error::Eval(m) && m@ == missing_lookup_field(name@),
{
    let mut text = chars_of("missing vehicle lookup field ");
    push_str(&mut text, name);
    Error::Eval(string_of(text.as_slice()))
}

fn request_from_fields(op: &str, fields: &[(String, String)]) -> (r: Result<VehicleLookupRequest>)
    ensures
        match lookup_from_fields(op@, field_views(fields@)) {
            Ok(v) => r matches Ok(q) && q@ == v,
            Err(m) => r matches Err(Error::Eval(x)) && x@ == m,
        },
{
    let source = match lookup_field(fields, "source") {
        Some(label) => VehicleSource::parse(label.as_str()),
        None => VehicleSource::parse(VehicleSource::Modeled.as_str()),
    };
    let source = match source {
        Ok(s) => s,
        Err(e) => {
            return Err(e);
        },
    };
    let market = match lookup_field(fields, "market") {
        Some(m) => m.clone(),
        None => "SE".to_owned(),
    };
    if str_eq(op, "vehicle/by-plate") || str_eq(op, "auto/vehicle/by-plate") {
        match lookup_field(fields, "plate") {
            None => Err(missing_error("plate")),
            Some(plate) => VehicleLookupRequest::by_plate(source, plate.as_str(), market.as_str()),
        }
    } else if str_eq(op, "vehicle/by-vin") || str_eq(op, "auto/vehicle/by-vin") {
        match lookup_field(fields, "vin") {
            None => Err(missing_error("vin")),
            Some(vin) => VehicleLookupRequest::by_vin(source, vin.as_str(), market.as_str()),
        }
    } else {
        let mut text = chars_of("unsupported vehicle lookup operation ");
        push_str(&mut text, op);
        Err(Error::Eval(string_of(text.as_slice())))
    }
}

fn request_from_call(operator: &Expr, args: &[Expr]) -> (r: Result<VehicleLookupRequest>)
    ensures
        match lookup_from_call(operator@, expr_views(args@)) {
            Ok(v) => r matches Ok(q) && q@ == v,
            Err(m) => r matches Err(Error::Eval(x)) && x@ == m,
        },
{
    let op = match operator {
        Expr::Symbol(s) => s.as_qualified_str(),
        _ => {
            return Err(lookup_error("vehicle lookup operator must be a symbol"));
        },
    };
    let fields = match keyed_args(
        args,
        "vehicle lookup arguments must be key/value pairs",
        "vehicle lookup field key must be a symbol or string",
        "vehicle lookup field value must be a string or symbol",
    ) {
        Ok(f) => f,
        Err(e) => {
            return Err(e);
        },
    };
    request_from_fields(op.as_str(), fields.as_slice())
}

fn request_from_items(items: &Vec<Expr>) -> (r: Result<VehicleLookupRequest>)
    ensures
        match (if items@.len() == 0 {
            Err("empty vehicle lookup request"@)
        } else {
            lookup_from_call(items@[0]@, expr_views(items@).drop_first())
        }) {
            Ok(v) => r matches Ok(q) && q@ == v,
            Err(m) => r matches Err(Error::Eval(x)) && x@ == m,
        },
{
    if items.len() == 0 {
        return Err(lookup_error("empty vehicle lookup request"));
    }
    let args = vstd::slice::slice_subrange(items.as_slice(), 1, items.len());
    assert(expr_views(args@) =~= expr_views(items@).drop_first());
    request_from_call(&items[0], args)
}

impl VehicleLookupRequest {
    /// Parses a lookup request: a call or list whose operator names the
    /// lookup, followed by `:key value` pairs, or a map with an `op` field.
    pub fn parse(expr: &Expr) -> (r: Result<Self>)
        ensures
            match parse_lookup(expr@) {
                Ok(v) => r matches Ok(q) && q@ == v,
                Err(m) => r matches Err(Error::Eval(x)) && x@ == m,
            },
    {
        match expr {
            Expr::Call { operator, args } => {
                proof {
                    crate::expr::lemma_call_view(*operator, *args);
                }
                request_from_call(operator, args.as_slice())
            },
            Expr::List(items) => {
                proof {
                    crate::expr::lemma_list_view(*items);
                }
                request_from_items(items)
            },
            Expr::Vector(items) => {
                proof {
                    crate::expr::lemma_vector_view(*items);
                }
                request_from_items(items)
            },
            Expr::Dict(entries) => {
                proof {
                    crate::expr::lemma_dict_view(*entries);
                }
                let fields = match map_args(
                    entries.as_slice(),
                    "vehicle lookup field key must be a symbol or string",
                    "vehicle lookup field value must be a string or symbol",
                ) {
                    Ok(f) => f,
                    Err(e) => {
                        return Err(e);
                    },
                };
                match lookup_field(fields.as_slice(), "op") {
                    None => Err(missing_error("op")),
                    Some(op) => request_from_fields(op.as_str(), fields.as_slice()),
                }
            },
            _ => Err(lookup_error("vehicle lookup request must be a call, list, vector, or map")),
        }
    }
}

/// The request a plate lookup is written as.
pub open spec fn plate_request_view(source: VehicleSource, plate: Seq<char>, market: Seq<char>) -> ExprView {
    keyed_view(
        seq![ExprView::Sym((Some("auto"@), "vehicle/by-plate"@))],
        seq![("source"@, vehicle_source_label(source)), ("market"@, market), ("plate"@, plate)],
    )
}

/// The request a VIN lookup is written as.
pub open spec fn vin_request_view(source: VehicleSource, vin: Seq<char>, market: Seq<char>) -> ExprView {
    keyed_view(
        seq![ExprView::Sym((Some("auto"@), "vehicle/by-vin"@))],
        seq![("source"@, vehicle_source_label(source)), ("market"@, market), ("vin"@, vin)],
    )
}

/// Builds an `auto/vehicle/by-plate` expression.
pub fn vehicle_by_plate_expr(source: VehicleSource, plate: &str, market: &str) -> (r: Expr)
    ensures
        r@ == plate_request_view(source, plate@, market@),
{
    let fields = vec![("source", source.as_str()), ("market", market), ("plate", plate)];
    assert(pair_views(fields@) =~= seq![("source"@, vehicle_source_label(source)), ("market"@, market@), ("plate"@, plate@)]);
    keyed_expr(Symbol::qualified("auto", "vehicle/by-plate"), fields.as_slice())
}

/// Builds an `auto/vehicle/by-vin` expression.
pub fn vehicle_by_vin_expr(source: VehicleSource, vin: &str, market: &str) -> (r: Expr)
    ensures
        r@ == vin_request_view(source, vin@, market@),
{
    let fields = vec![("source", source.as_str()), ("market", market), ("vin", vin)];
    assert(pair_views(fields@) =~= seq![("source"@, vehicle_source_label(source)), ("market"@, market@), ("vin"@, vin@)]);
    keyed_expr(Symbol::qualified("auto", "vehicle/by-vin"), fields.as_slice())
}

/// A source's label reads back as that source.
pub proof fn lemma_vehicle_source_label_parses(source: VehicleSource)
    ensures
        parse_vehicle_source(vehicle_source_label(source)) == Ok::<VehicleSource, Seq<char>>(source),
{
    reveal_strlit("modeled");
    reveal_strlit("fixture");
    reveal_strlit("haynespro");
    reveal_strlit("haynes-pro");
    reveal_strlit("biluppgifter.se");
    reveal_strlit("biluppgifter-se");
    reveal_strlit("biluppgifter");
    let label = vehicle_source_label(source);
    match source {
        VehicleSource::Modeled => {
            assert(label.len() == 7);
        },
        VehicleSource::HaynesPro => {
            assert(label.len() == 9);
            assert(label != "modeled"@);
            assert(label != "fixture"@);
        },
        VehicleSource::BiluppgifterSe => {
            assert(label.len() == 15);
            assert(label != "modeled"@);
            assert(label != "fixture"@);
            assert(label != "haynespro"@);
            assert(label != "haynes-pro"@);
        },
    }
    crate::parts::lemma_dash_key_fixed(label);
}

/// The fields of a lookup written with `source`, `market` and a key field
/// read back as themselves, and the source reads back as itself.
proof fn lemma_lookup_fields(source: VehicleSource, market: Seq<char>, key_name: Seq<char>, key: Seq<char>)
    requires
        key_name == "plate"@ || key_name == "vin"@,
    ensures
        ({
            let fs = seq![("source"@, vehicle_source_label(source)), ("market"@, market), (key_name, key)];
            &&& keyed_fields(crate::request::keyed_items(fs), pairs_refusal(), key_refusal(), value_refusal())
                == Ok::<Seq<(Seq<char>, Seq<char>)>, Seq<char>>(fs)
            &&& lookup(fs, "source"@) == Some(vehicle_source_label(source))
            &&& lookup(fs, "market"@) == Some(market)
            &&& lookup(fs, key_name) == Some(key)
        }),
{
    reveal_strlit("source");
    reveal_strlit("market");
    reveal_strlit("plate");
    reveal_strlit("vin");
    let fs = seq![("source"@, vehicle_source_label(source)), ("market"@, market), (key_name, key)];
    assert(fs[0].0[0] != ':');
    assert(fs[1].0[0] != ':');
    assert(fs[2].0[0] != ':');
    assert forall|i: int| 0 <= i < fs.len() implies (#[trigger] fs[i]).0.len() == 0 || fs[i].0[0] != ':' by {
        if i == 0 {
        } else if i == 1 {
        } else {
        }
    }
    crate::request::lemma_keyed_round_trip(fs, pairs_refusal(), key_refusal(), value_refusal());
    assert("source"@[0] != "market"@[0]);
    assert(key_name != "source"@);
    assert(key_name != "market"@);
    reveal_with_fuel(lookup, 4);
}

/// Parsing a written plate lookup gives what a plate lookup for the same
/// source, plate and market gives.
pub proof fn lemma_plate_request_round_trip(source: VehicleSource, plate: Seq<char>, market: Seq<char>)
    ensures
        parse_lookup(plate_request_view(source, plate, market)) == plate_outcome(source, plate, market),
{
    let fs = seq![("source"@, vehicle_source_label(source)), ("market"@, market), ("plate"@, plate)];
    let items = seq![ExprView::Sym((Some("auto"@), "vehicle/by-plate"@))] + crate::request::keyed_items(fs);
    assert(items.drop_first() =~= crate::request::keyed_items(fs));
    reveal_strlit("auto");
    reveal_strlit("vehicle/by-plate");
    reveal_strlit("auto/vehicle/by-plate");
    assert(qualified_text((Some("auto"@), "vehicle/by-plate"@)) =~= "auto/vehicle/by-plate"@);
    lemma_lookup_fields(source, market, "plate"@, plate);
    lemma_vehicle_source_label_parses(source);
}

/// Parsing a written VIN lookup gives what a VIN lookup for the same
/// source, VIN and market gives.
pub proof fn lemma_vin_request_round_trip(source: VehicleSource, vin: Seq<char>, market: Seq<char>)
    ensures
        parse_lookup(vin_request_view(source, vin, market)) == vin_outcome(source, vin, market),
{
    let fs = seq![("source"@, vehicle_source_label(source)), ("market"@, market), ("vin"@, vin)];
    let items = seq![ExprView::Sym((Some("auto"@), "vehicle/by-vin"@))] + crate::request::keyed_items(fs);
    assert(items.drop_first() =~= crate::request::keyed_items(fs));
    reveal_strlit("auto");
    reveal_strlit("vehicle/by-vin");
    reveal_strlit("auto/vehicle/by-vin");
    reveal_strlit("vehicle/by-plate");
    reveal_strlit("auto/vehicle/by-plate");
    assert(qualified_text((Some("auto"@), "vehicle/by-vin"@)) =~= "auto/vehicle/by-vin"@);
    assert("auto/vehicle/by-vin"@ != "vehicle/by-plate"@);
    assert("auto/vehicle/by-vin"@ != "auto/vehicle/by-plate"@);
    lemma_lookup_fields(source, market, "vin"@, vin);
    lemma_vehicle_source_label_parses(source);
}

} // verus!
