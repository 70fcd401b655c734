//! Vehicle identity: lookup sources, records, identifier normalization,
//! lookup requests, and the bridges that answer them.

use vstd::prelude::*;

use crate::domain::{VehicleId, strs};
use crate::kernel::{CapabilityName, CapabilitySet, Error, Result, denied};
use crate::numtext::{decimal, decimal_chars};
use crate::parts::{dash_key, dash_key_chars};
use crate::text::{
    chars_of, eq_ignore_ascii_case, is_ascii_alnum, is_ascii_space, lower_seq, push_str, str_eq, string_of,
    trim, trim_str, trim_upper_string, upper, upper_char, upper_seq,
};

verus! {

/// Capability a live vehicle source needs for its network transport.
pub const NET_HTTP_CAPABILITY: &'static str = "net/http";

/// What `{:?}` prints for a character.
pub uninterp spec fn char_debug(c: char) -> Seq<char>;

/// `format!("{:?}", c)`: the character in single quotes, escaped the way
/// `char`'s `Debug` escapes. The contract claims that a printable ASCII
/// character other than a quote or a backslash prints as itself between
/// single quotes; what other characters print as is left to the name.
#[verifier::external_body]
fn debug_char(c: char) -> (r: String)
    ensures
        r@ == char_debug(c),
        (' ' <= c && c <= '~' && c != '\'' && c != '"' && c != '\\') ==> r@ == seq!['\'', c, '\''],
{
    format!("{:?}", c)
}

/// Vehicle lookup source.
#[derive(Clone, Copy, Debug, PartialEq, Eq, Structural)]
pub enum VehicleSource {
    /// Synthetic local records.
    Modeled,
    /// HaynesPro-shaped host bridge.
    HaynesPro,
    /// biluppgifter.se-shaped host bridge.
    BiluppgifterSe,
}

impl Default for VehicleSource {
    fn default() -> (r: Self)
        ensures
            r == VehicleSource::Modeled,
    {
        VehicleSource::Modeled
    }
}

/// The source a label names, or the normalized label when none.
pub open spec fn parse_vehicle_source(label: Seq<char>) -> core::result::Result<VehicleSource, Seq<char>> {
    let n = dash_key(label);
    if n == "modeled"@ || n == "fixture"@ {
        Ok(VehicleSource::Modeled)
    } else if n == "haynespro"@ || n == "haynes-pro"@ {
        Ok(VehicleSource::HaynesPro)
    } else if n == "biluppgifter.se"@ || n == "biluppgifter-se"@ || n == "biluppgifter"@ {
        Ok(VehicleSource::BiluppgifterSe)
    } else {
        Err(n)
    }
}

/// The stable label of a source.
pub open spec fn vehicle_source_label(s: VehicleSource) -> Seq<char> {
    match s {
        VehicleSource::Modeled => "modeled"@,
        VehicleSource::HaynesPro => "haynespro"@,
        VehicleSource::BiluppgifterSe => "biluppgifter.se"@,
    }
}

/// Whether `n` spells `lit`.
fn is_lit(n: &[char], lit: &str) -> (r: bool)
    ensures
        r == (n@ == lit@),
{
    let l = chars_of(lit);
    crate::text::chars_eq(n, l.as_slice())
}

impl VehicleSource {
    /// Parses a lookup source label.
    pub fn parse(value: &str) -> (r: Result<Self>)
        ensures
            match parse_vehicle_source(value@) {
                Ok(s) => r == Ok::<VehicleSource, Error>(s),
                Err(n) => r matches Err(Error::Eval(msg)) && msg@ == "unknown vehicle lookup source "@ + n,
            },
    {
        let k = dash_key_chars(value);
        let n = k.as_slice();
        if is_lit(n, "modeled") || is_lit(n, "fixture") {
            Ok(VehicleSource::Modeled)
        } else if is_lit(n, "haynespro") || is_lit(n, "haynes-pro") {
            Ok(VehicleSource::HaynesPro)
        } else if is_lit(n, "biluppgifter.se") || is_lit(n, "biluppgifter-se") || is_lit(n, "biluppgifter") {
            Ok(VehicleSource::BiluppgifterSe)
        } else {
            let mut text = chars_of("unknown vehicle lookup source ");
            let mut rest = k.clone();
            assert(rest@ == k@);
            text.append(&mut rest);
            Err(Error::Eval(string_of(text.as_slice())))
        }
    }

    /// Stable source label.
    pub fn as_str(self) -> (r: &'static str)
        ensures
            r@ == vehicle_source_label(self),
    {
        match self {
            VehicleSource::Modeled => "modeled",
            VehicleSource::HaynesPro => "haynespro",
            VehicleSource::BiluppgifterSe => "biluppgifter.se",
        }
    }

    /// Returns true when this source needs a host-owned live bridge.
    pub fn is_live(self) -> (r: bool)
        ensures
            r == (self != VehicleSource::Modeled),
    {
        match self {
            VehicleSource::Modeled => false,
            _ => true,
        }
    }
}

/// How an identifier normalizes: ASCII whitespace and `-` are dropped,
/// alphanumerics uppercased, and the first other character refuses it.
pub open spec fn scan_identifier(s: Seq<char>) -> core::result::Result<Seq<char>, char>
    decreases s.len(),
{
    if s.len() == 0 {
        Ok(Seq::empty())
    } else {
        match scan_identifier(s.drop_last()) {
            Err(c) => Err(c),
            Ok(k) => {
                let c = s.last();
                if is_ascii_space(c) || c == '-' {
                    Ok(k)
                } else if is_ascii_alnum(c) {
                    Ok(k.push(upper(c)))
                } else {
                    Err(c)
                }
            },
        }
    }
}

/// Once a prefix is refused, the whole identifier is refused the same way.
pub proof fn lemma_scan_refusal_sticks(s: Seq<char>, k: int)
    requires
        0 <= k <= s.len(),
        scan_identifier(s.take(k)) is Err,
    ensures
        scan_identifier(s) == scan_identifier(s.take(k)),
    decreases s.len(),
{
    if k == s.len() {
        assert(s.take(k) =~= s);
    } else {
        assert(s.drop_last().take(k) =~= s.take(k));
        lemma_scan_refusal_sticks(s.drop_last(), k);
    }
}

/// What normalizing an identifier gives: the error text, or the key.
pub open spec fn identifier_result(s: Seq<char>, label: Seq<char>, min: nat, max: nat) -> core::result::Result<Seq<char>, Seq<char>> {
    match scan_identifier(s) {
        Err(c) => Err("vehicle "@ + label + " contains unsupported character "@ + char_debug(c)),
        Ok(k) => if k.len() < min || k.len() > max {
            Err("vehicle "@ + label + " must normalize to "@ + decimal(min) + "..="@ + decimal(max)
                + " ASCII alphanumeric characters"@)
        } else {
            Ok(k)
        },
    }
}

/// The result of a normalization as the library's result.
pub open spec fn as_result(r: core::result::Result<Seq<char>, Seq<char>>, out: Result<String>) -> bool {
    match r {
        Ok(k) => out matches Ok(v) && v@ == k,
        Err(m) => out matches Err(Error::Eval(msg)) && msg@ == m,
    }
}

fn normalize_identifier(value: &str, label: &str, min: usize, max: usize) -> (r: Result<String>)
    ensures
        as_result(identifier_result(value@, label@, min as nat, max as nat), r),
{
    let cs = chars_of(value);
    let mut out: Vec<char> = Vec::new();
    let mut i: usize = 0;
    assert(cs@.take(0) =~= Seq::<char>::empty());
    while i < cs.len()
        invariant
            cs@ == value@,
            i <= cs@.len(),
            scan_identifier(cs@.take(i as int)) == Ok::<Seq<char>, char>(out@),
            forall|k: int| 0 <= k < out@.len() ==> is_ascii_alnum(#[trigger] out@[k]) || ('A' <= out@[k] <= 'Z'),
        decreases cs@.len() - i,
    {
        let c = cs[i];
        proof {
            assert(cs@.take(i + 1).drop_last() =~= cs@.take(i as int));
            assert(cs@.take(i + 1).last() == c);
        }
        if c == ' ' || c == '\t' || c == '\n' || c == '\u{c}' || c == '\r' || c == '-' {
        } else if ('0' <= c && c <= '9') || ('a' <= c && c <= 'z') || ('A' <= c && c <= 'Z') {
            out.push(upper_char(c));
        } else {
            proof {
                lemma_scan_refusal_sticks(value@, i + 1);
            }
            let mut text = chars_of("vehicle ");
            push_str(&mut text, label);
            push_str(&mut text, " contains unsupported character ");
            let shown = debug_char(c);
            push_str(&mut text, shown.as_str());
            return Err(Error::Eval(string_of(text.as_slice())));
        }
        i = i + 1;
    }
    assert(cs@.take(cs@.len() as int) =~= cs@);
    if out.len() < min || out.len() > max {
        let mut text = chars_of("vehicle ");
        push_str(&mut text, label);
        push_str(&mut text, " must normalize to ");
        let mut lo = decimal_chars(min as u64);
        text.append(&mut lo);
        push_str(&mut text, "..=");
        let mut hi = decimal_chars(max as u64);
        text.append(&mut hi);
        push_str(&mut text, " ASCII alphanumeric characters");
        return Err(Error::Eval(string_of(text.as_slice())));
    }
    Ok(string_of(out.as_slice()))
}

/// What normalizing a plate gives for a market.
pub open spec fn plate_result(plate: Seq<char>, market: Seq<char>) -> core::result::Result<Seq<char>, Seq<char>> {
    if lower_seq(trim(market)) != lower_seq("SE"@) {
        Err("vehicle plate lookup only supports market SE, got "@ + market)
    } else {
        identifier_result(plate, "plate"@, 5, 8)
    }
}

/// What normalizing a VIN gives.
pub open spec fn vin_result(vin: Seq<char>) -> core::result::Result<Seq<char>, Seq<char>> {
    identifier_result(vin, "vin"@, 8, 20)
}

/// Normalizes a Swedish plate to 5 to 8 uppercase ASCII alphanumerics.
pub fn normalize_plate(plate: &str, market: &str) -> (r: Result<String>)
    ensures
        as_result(plate_result(plate@, market@), r),
{
    let trimmed = trim_str(market);
    if !eq_ignore_ascii_case(trimmed.as_str(), "SE") {
        let mut text = chars_of("vehicle plate lookup only supports market SE, got ");
        push_str(&mut text, market);
        return Err(Error::Eval(string_of(text.as_slice())));
    }
    normalize_identifier(plate, "plate", 5, 8)
}

/// Normalizes a VIN to 8 to 20 uppercase ASCII alphanumerics.
pub fn normalize_vin(vin: &str) -> (r: Result<String>)
    ensures
        as_result(vin_result(vin@), r),
{
    normalize_identifier(vin, "vin", 8, 20)
}

/// One modeled vehicle identity record.
#[derive(Clone, Debug, PartialEq, Eq)]
pub struct VehicleRecord {
    /// Vehicle identity.
    pub vehicle: VehicleId,
    /// Source that answered.
    pub source: VehicleSource,
    /// Market, such as `SE`.
    pub market: String,
    /// Normalized plate, when known.
    pub plate: Option<String>,
    /// Normalized VIN, when known.
    pub vin: Option<String>,
    /// Make label.
    pub make: String,
    /// Model label.
    pub model: String,
    /// Model year text.
    pub model_year: String,
}

/// The view of an optional string.
pub open spec fn opt_chars(o: Option<String>) -> Option<Seq<char>> {
    match o {
        Some(s) => Some(s@),
        None => None,
    }
}

/// What a record says.
pub struct VehicleRecordView {
    /// Vehicle namespace.
    pub namespace: Seq<char>,
    /// Vehicle key.
    pub key: Seq<char>,
    /// Source.
    pub source: VehicleSource,
    /// Market.
    pub market: Seq<char>,
    /// Plate.
    pub plate: Option<Seq<char>>,
    /// VIN.
    pub vin: Option<Seq<char>>,
    /// Make.
    pub make: Seq<char>,
    /// Model.
    pub model: Seq<char>,
    /// Model year.
    pub model_year: Seq<char>,
}

impl View for VehicleRecord {
    type V = VehicleRecordView;

    open spec fn view(&self) -> VehicleRecordView {
        VehicleRecordView {
            namespace: self.vehicle.namespace@,
            key: self.vehicle.key@,
            source: self.source,
            market: self.market@,
            plate: opt_chars(self.plate),
            vin: opt_chars(self.vin),
            make: self.make@,
            model: self.model@,
            model_year: self.model_year@,
        }
    }
}

fn clone_opt(o: &Option<String>) -> (r: Option<String>)
    ensures
        opt_chars(r) == opt_chars(*o),
{
    match o {
        Some(s) => Some(s.clone()),
        None => None,
    }
}

impl VehicleRecord {
    /// Builds a record with no plate or VIN.
    pub fn new(vehicle: VehicleId, source: VehicleSource, market: &str, make: &str, model: &str, model_year: &str) -> (r: Self)
        ensures
            r@ == (VehicleRecordView {
                namespace: vehicle.namespace@,
                key: vehicle.key@,
                source,
                market: market@,
                plate: None,
                vin: None,
                make: make@,
                model: model@,
                model_year: model_year@,
            }),
    {
        VehicleRecord {
            vehicle,
            source,
            market: market.to_owned(),
            plate: None,
            vin: None,
            make: make.to_owned(),
            model: model.to_owned(),
            model_year: model_year.to_owned(),
        }
    }

    /// Sets the plate, normalized for the record's market.
    pub fn with_plate(self, plate: &str) -> (r: Result<Self>)
        ensures
            match plate_result(plate@, self.market@) {
                Ok(k) => r matches Ok(rec) && rec@ == (VehicleRecordView { plate: Some(k), ..self@ }),
                Err(m) => r matches Err(Error::Eval(msg)) && msg@ == m,
            },
    {
        match normalize_plate(plate, self.market.as_str()) {
            Ok(p) => Ok(VehicleRecord { plate: Some(p), ..self }),
            Err(e) => Err(e),
        }
    }

    /// Sets the VIN, normalized.
    pub fn with_vin(self, vin: &str) -> (r: Result<Self>)
        ensures
            match vin_result(vin@) {
                Ok(k) => r matches Ok(rec) && rec@ == (VehicleRecordView { vin: Some(k), ..self@ }),
                Err(m) => r matches Err(Error::Eval(msg)) && msg@ == m,
            },
    {
        match normalize_vin(vin) {
            Ok(v) => Ok(VehicleRecord { vin: Some(v), ..self }),
            Err(e) => Err(e),
        }
    }

    /// A copy of this record.
    pub fn duplicate(&self) -> (r: Self)
        ensures
            r@ == self@,
    {
        VehicleRecord {
            vehicle: self.vehicle.duplicate(),
            source: self.source,
            market: self.market.clone(),
            plate: clone_opt(&self.plate),
            vin: clone_opt(&self.vin),
            make: self.make.clone(),
            model: self.model.clone(),
            model_year: self.model_year.clone(),
        }
    }
}

/// Lookup key family.
#[derive(Clone, Copy, Debug, PartialEq, Eq, Structural)]
pub enum VehicleLookupKind {
    /// Plate lookup.
    Plate,
    /// VIN lookup.
    Vin,
}

impl VehicleLookupKind {
    /// The request operation symbol text.
    pub fn operation(self) -> (r: &'static str)
        ensures
            r@ == (match self {
                VehicleLookupKind::Plate => "auto/vehicle/by-plate"@,
                VehicleLookupKind::Vin => "auto/vehicle/by-vin"@,
            }),
    {
        match self {
            VehicleLookupKind::Plate => "auto/vehicle/by-plate",
            VehicleLookupKind::Vin => "auto/vehicle/by-vin",
        }
    }

    /// The request field that carries the key.
    pub fn key_field(self) -> (r: &'static str)
        ensures
            r@ == (match self {
                VehicleLookupKind::Plate => "plate"@,
                VehicleLookupKind::Vin => "vin"@,
            }),
    {
        match self {
            VehicleLookupKind::Plate => "plate",
            VehicleLookupKind::Vin => "vin",
        }
    }
}

/// A normalized vehicle lookup.
#[derive(Clone, Debug, PartialEq, Eq)]
pub struct VehicleLookupRequest {
    /// Source to ask.
    pub source: VehicleSource,
    /// Key family.
    pub kind: VehicleLookupKind,
    /// Normalized key.
    pub key: String,
    /// Trimmed, uppercased market.
    pub market: String,
}

impl VehicleLookupRequest {
    /// A plate lookup: the plate normalized for the market, the market
    /// trimmed and uppercased.
    pub fn by_plate(source: VehicleSource, plate: &str, market: &str) -> (r: Result<Self>)
        ensures
            match plate_result(plate@, market@) {
                Ok(k) => r matches Ok(q) && q.source == source && q.kind == VehicleLookupKind::Plate && q.key@ == k
                    && q.market@ == upper_seq(trim(market@)),
                Err(m) => r matches Err(Error::Eval(msg)) && msg@ == m,
            },
    {
        match normalize_plate(plate, market) {
            Ok(key) => Ok(VehicleLookupRequest {
                source,
                kind: VehicleLookupKind::Plate,
                key,
                market: trim_upper_string(market),
            }),
            Err(e) => Err(e),
        }
    }

    /// A VIN lookup: the VIN normalized, the market trimmed and uppercased.
    pub fn by_vin(source: VehicleSource, vin: &str, market: &str) -> (r: Result<Self>)
        ensures
            match vin_result(vin@) {
                Ok(k) => r matches Ok(q) && q.source == source && q.kind == VehicleLookupKind::Vin && q.key@ == k
                    && q.market@ == upper_seq(trim(market@)),
                Err(m) => r matches Err(Error::Eval(msg)) && msg@ == m,
            },
    {
        match normalize_vin(vin) {
            Ok(key) => Ok(VehicleLookupRequest {
                source,
                kind: VehicleLookupKind::Vin,
                key,
                market: trim_upper_string(market),
            }),
            Err(e) => Err(e),
        }
    }
}

/// Contract a host-owned live vehicle source must honour.
#[derive(Clone, Debug, PartialEq, Eq)]
pub struct VehicleBridgeContract {
    /// Source the contract covers.
    pub source: VehicleSource,
    /// Provider label.
    pub provider: String,
    /// Operations the bridge serves.
    pub operations: Vec<String>,
    /// Capability the bridge requires.
    pub required_capability: String,
    /// Where the host boundary lies.
    pub host_boundary: String,
}

impl VehicleBridgeContract {
    /// Builds a contract that requires `net/http`.
    pub fn new(source: VehicleSource, provider: &str, operations: Vec<String>, host_boundary: &str) -> (r: Self)
        ensures
            r.source == source,
            r.provider@ == provider@,
            r.operations == operations,
            r.required_capability@ == "net/http"@,
            r.host_boundary@ == host_boundary@,
    {
        VehicleBridgeContract {
            source,
            provider: provider.to_owned(),
            operations,
            required_capability: NET_HTTP_CAPABILITY.to_owned(),
            host_boundary: host_boundary.to_owned(),
        }
    }
}

/// The operations every live vehicle source serves.
fn lookup_operations() -> (r: Vec<String>)
    ensures
        strs(r@) == seq!["vehicle/by-plate"@, "vehicle/by-vin"@],
{
    let r = vec!["vehicle/by-plate".to_owned(), "vehicle/by-vin".to_owned()];
    assert(strs(r@) =~= seq!["vehicle/by-plate"@, "vehicle/by-vin"@]);
    r
}

/// The host boundary every live vehicle source sits behind.
pub open spec fn live_boundary() -> Seq<char> {
    "host-owned HttpDir under net/http; no endpoint, key, plate, VIN, or owner data is committed"@
}

/// Returns the public contract catalog for live vehicle identity sources.
pub fn vehicle_bridge_contracts() -> (r: Vec<VehicleBridgeContract>)
    ensures
        r@.len() == 2,
        r@[0].source == VehicleSource::HaynesPro,
        r@[0].provider@ == "HaynesPro"@,
        r@[1].source == VehicleSource::BiluppgifterSe,
        r@[1].provider@ == "biluppgifter.se"@,
        forall|i: int| 0 <= i < 2 ==> {
            &&& strs((#[trigger] r@[i]).operations@) == seq!["vehicle/by-plate"@, "vehicle/by-vin"@]
            &&& r@[i].required_capability@ == "net/http"@
            &&& r@[i].host_boundary@ == live_boundary()
        },
{
    vec![
        VehicleBridgeContract::new(
            VehicleSource::HaynesPro,
            "HaynesPro",
            lookup_operations(),
            "host-owned HttpDir under net/http; no endpoint, key, plate, VIN, or owner data is committed",
        ),
        VehicleBridgeContract::new(
            VehicleSource::BiluppgifterSe,
            "biluppgifter.se",
            lookup_operations(),
            "host-owned HttpDir under net/http; no endpoint, key, plate, VIN, or owner data is committed",
        ),
    ]
}

/// Whether a record answers a request: same market, and the requested key
/// equal to the record's plate or VIN.
pub open spec fn record_matches(r: VehicleRecordView, q: VehicleLookupRequest) -> bool {
    &&& r.market == q.market@
    &&& match q.kind {
        VehicleLookupKind::Plate => r.plate == Some(q.key@),
        VehicleLookupKind::Vin => r.vin == Some(q.key@),
    }
}

fn record_matches_exec(r: &VehicleRecord, q: &VehicleLookupRequest) -> (b: bool)
    ensures
        b == record_matches(r@, *q),
{
    if !str_eq(r.market.as_str(), q.market.as_str()) {
        return false;
    }
    let field = match q.kind {
        VehicleLookupKind::Plate => &r.plate,
        VehicleLookupKind::Vin => &r.vin,
    };
    match field {
        Some(v) => str_eq(v.as_str(), q.key.as_str()),
        None => false,
    }
}

/// Local vehicle bridge over synthetic records.
#[derive(Clone, Debug)]
pub struct ModeledVehicleBridge {
    records: Vec<VehicleRecord>,
}

/// The views of a list of records.
pub open spec fn record_views(v: Seq<VehicleRecord>) -> Seq<VehicleRecordView> {
    v.map_values(|r: VehicleRecord| r@)
}

impl View for ModeledVehicleBridge {
    type V = Seq<VehicleRecordView>;

    closed spec fn view(&self) -> Seq<VehicleRecordView> {
        record_views(self.records@)
    }
}

/// The two synthetic records of the fixture bridge.
pub open spec fn fixture_records() -> Seq<VehicleRecordView> {
    seq![
        VehicleRecordView {
            namespace: "modeled-se"@,
            key: "vehicle-alpha"@,
            source: VehicleSource::Modeled,
            market: "SE"@,
            plate: Some("SIM123"@),
            vin: Some("SIMVINALPHA001"@),
            make: "modeled make"@,
            model: "alpha estate"@,
            model_year: "2024"@,
        },
        VehicleRecordView {
            namespace: "modeled-se"@,
            key: "vehicle-beta"@,
            source: VehicleSource::Modeled,
            market: "SE"@,
            plate: Some("SIM45X"@),
            vin: Some("SIMVINBETA002"@),
            make: "modeled make"@,
            model: "beta van"@,
            model_year: "2025"@,
        },
    ]
}

/// The refusal of the modeled bridge asked for a live source.
pub open spec fn modeled_refusal(source: VehicleSource) -> Seq<char> {
    "modeled vehicle bridge cannot answer source "@ + vehicle_source_label(source)
}

/// The refusal of the live bridge asked for the modeled source.
pub open spec fn live_refusal(source: VehicleSource) -> Seq<char> {
    "live vehicle bridge cannot answer source "@ + vehicle_source_label(source)
}

impl ModeledVehicleBridge {
    /// Builds a modeled bridge over explicit records.
    pub fn new(records: Vec<VehicleRecord>) -> (r: Self)
        ensures
            r@ == record_views(records@),
    {
        ModeledVehicleBridge { records }
    }

    /// Builds the synthetic fixture bridge; its plates and VINs are stored
    /// normalized.
    pub fn fixture() -> (r: Self)
        ensures
            r@ == fixture_records(),
    {
        let alpha = VehicleRecord {
            vehicle: VehicleId::new("modeled-se", "vehicle-alpha"),
            source: VehicleSource::Modeled,
            market: "SE".to_owned(),
            plate: Some("SIM123".to_owned()),
            vin: Some("SIMVINALPHA001".to_owned()),
            make: "modeled make".to_owned(),
            model: "alpha estate".to_owned(),
            model_year: "2024".to_owned(),
        };
        let beta = VehicleRecord {
            vehicle: VehicleId::new("modeled-se", "vehicle-beta"),
            source: VehicleSource::Modeled,
            market: "SE".to_owned(),
            plate: Some("SIM45X".to_owned()),
            vin: Some("SIMVINBETA002".to_owned()),
            make: "modeled make".to_owned(),
            model: "beta van".to_owned(),
            model_year: "2025".to_owned(),
        };
        let records = vec![alpha, beta];
        assert(record_views(records@) =~= fixture_records());
        ModeledVehicleBridge { records }
    }

    /// Returns the modeled records.
    pub fn records(&self) -> (r: &[VehicleRecord])
        ensures
            record_views(r@) == self@,
    {
        self.records.as_slice()
    }

    /// Answers a modeled request with the first matching record.
    pub fn lookup(&self, request: &VehicleLookupRequest) -> (r: Result<VehicleRecord>)
        ensures
            request.source != VehicleSource::Modeled ==> (r matches Err(Error::Eval(msg)) && msg@ == modeled_refusal(request.source)),
            request.source == VehicleSource::Modeled ==> (r is Ok <==> exists|i: int| 0 <= i < self@.len() && record_matches(#[trigger] self@[i], *request)),
            r matches Ok(rec) ==> exists|i: int| {
                &&& 0 <= i < self@.len()
                &&& record_matches(#[trigger] self@[i], *request)
                &&& forall|j: int| 0 <= j < i ==> !record_matches(#[trigger] self@[j], *request)
                &&& rec@ == self@[i]
            },
            request.source == VehicleSource::Modeled && r is Err ==> (r matches Err(Error::Eval(msg)) && msg@ == "no modeled vehicle for "@ + request.key@),
    {
        proof {
            let v = self@;
            assert(v == record_views(self.records@));
        }
        if request.source != VehicleSource::Modeled {
            let mut text = chars_of("modeled vehicle bridge cannot answer source ");
            push_str(&mut text, request.source.as_str());
            return Err(Error::Eval(string_of(text.as_slice())));
        }
        let mut i: usize = 0;
        while i < self.records.len()
            invariant
                i <= self.records@.len(),
                request.source == VehicleSource::Modeled,
                self@ == record_views(self.records@),
                forall|j: int| 0 <= j < i ==> !record_matches(#[trigger] self@[j], *request),
            decreases self.records@.len() - i,
        {
            if record_matches_exec(&self.records[i], request) {
                assert(self@[i as int] == self.records@[i as int]@);
                return Ok(self.records[i].duplicate());
            }
            assert(self@[i as int] == self.records@[i as int]@);
            i = i + 1;
        }
        let mut text = chars_of("no modeled vehicle for ");
        push_str(&mut text, request.key.as_str());
        Err(Error::Eval(string_of(text.as_slice())))
    }
}

impl Default for ModeledVehicleBridge {
    fn default() -> (r: Self)
        ensures
            r@ == fixture_records(),
    {
        Self::fixture()
    }
}

/// The refusal of a live source with no host transport configured.
pub open spec fn unconfigured_message(source: VehicleSource) -> Seq<char> {
    "vehicle source "@ + vehicle_source_label(source)
        + " requires a host-owned HttpDir under net/http; this crate commits no endpoint, key, plate, VIN, or owner data"@
}

/// Live vehicle bridge placeholder: it commits no endpoint and always
/// fails closed.
#[derive(Clone, Debug, Default)]
pub struct LiveVehicleBridge;

impl LiveVehicleBridge {
    /// Answers a live request given the caller's held capabilities: a
    /// modeled source is refused, a caller without `net/http` is denied,
    /// and otherwise the missing host transport is reported.
    pub fn lookup(&self, held: &CapabilitySet, request: &VehicleLookupRequest) -> (r: Result<VehicleRecord>)
        ensures
            request.source == VehicleSource::Modeled ==> (r matches Err(Error::Eval(msg)) && msg@ == live_refusal(request.source)),
            request.source != VehicleSource::Modeled && !held@.contains("net/http"@) ==> (r matches Err(
                Error::CapabilityDenied { capability: c },
            ) && c@ == "net/http"@),
            request.source != VehicleSource::Modeled && held@.contains("net/http"@) ==> (r matches Err(Error::Eval(msg))
                && msg@ == unconfigured_message(request.source)),
    {
        if !request.source.is_live() {
            let mut text = chars_of("live vehicle bridge cannot answer source ");
            push_str(&mut text, request.source.as_str());
            return Err(Error::Eval(string_of(text.as_slice())));
        }
        let net = CapabilityName::new(NET_HTTP_CAPABILITY);
        if !held.contains(&net) {
            return Err(denied(&net));
        }
        let mut text = chars_of("vehicle source ");
        push_str(&mut text, request.source.as_str());
        push_str(
            &mut text,
            " requires a host-owned HttpDir under net/http; this crate commits no endpoint, key, plate, VIN, or owner data",
        );
        Err(Error::Eval(string_of(text.as_slice())))
    }
}

/// Routes modeled requests to the modeled bridge and live ones to the live
/// bridge.
#[derive(Clone, Debug, Default)]
pub struct VehicleLookupRouter {
    modeled: ModeledVehicleBridge,
    live: LiveVehicleBridge,
}

impl View for VehicleLookupRouter {
    type V = Seq<VehicleRecordView>;

    closed spec fn view(&self) -> Seq<VehicleRecordView> {
        self.modeled@
    }
}

impl VehicleLookupRouter {
    /// Builds a router over explicit bridges.
    pub fn new(modeled: ModeledVehicleBridge, live: LiveVehicleBridge) -> (r: Self)
        ensures
            r@ == modeled@,
    {
        VehicleLookupRouter { modeled, live }
    }

    /// Returns the modeled bridge.
    pub fn modeled(&self) -> (r: &ModeledVehicleBridge)
        ensures
            r@ == self@,
    {
        &self.modeled
    }

    /// Answers a request through the bridge its source selects.
    pub fn lookup(&self, held: &CapabilitySet, request: &VehicleLookupRequest) -> (r: Result<VehicleRecord>)
        ensures
            request.source == VehicleSource::Modeled ==> (r is Ok <==> exists|i: int| 0 <= i < self@.len() && record_matches(#[trigger] self@[i], *request)),
            request.source == VehicleSource::Modeled ==> (r matches Ok(rec) ==> exists|i: int| {
                &&& 0 <= i < self@.len()
                &&& record_matches(#[trigger] self@[i], *request)
                &&& forall|j: int| 0 <= j < i ==> !record_matches(#[trigger] self@[j], *request)
                &&& rec@ == self@[i]
            }),
            request.source == VehicleSource::Modeled && r is Err ==> (r matches Err(Error::Eval(msg)) && msg@ == "no modeled vehicle for "@ + request.key@),
            request.source != VehicleSource::Modeled && !held@.contains("net/http"@) ==> (r matches Err(
                Error::CapabilityDenied { capability: c },
            ) && c@ == "net/http"@),
            request.source != VehicleSource::Modeled && held@.contains("net/http"@) ==> (r matches Err(Error::Eval(msg))
                && msg@ == unconfigured_message(request.source)),
    {
        proof {
            let v = self@;
            assert(v == self.modeled@);
        }
        match request.source {
            VehicleSource::Modeled => self.modeled.lookup(request),
            _ => self.live.lookup(held, request),
        }
    }
}

/// Looks up a vehicle record by plate through the default router.
pub fn vehicle_record_by_plate(held: &CapabilitySet, source: VehicleSource, plate: &str, market: &str) -> (r: Result<VehicleRecord>)
    ensures
        plate_result(plate@, market@) matches Err(m) ==> (r matches Err(Error::Eval(msg)) && msg@ == m),
        plate_result(plate@, market@) matches Ok(k) ==> lookup_outcome(held@, source, VehicleLookupKind::Plate, k, upper_seq(trim(market@)), r),
{
    match VehicleLookupRequest::by_plate(source, plate, market) {
        Ok(request) => {
            let router = VehicleLookupRouter::new(ModeledVehicleBridge::fixture(), LiveVehicleBridge);
            router.lookup(held, &request)
        },
        Err(e) => Err(e),
    }
}

/// Looks up a vehicle record by VIN through the default router.
pub fn vehicle_record_by_vin(held: &CapabilitySet, source: VehicleSource, vin: &str, market: &str) -> (r: Result<VehicleRecord>)
    ensures
        vin_result(vin@) matches Err(m) ==> (r matches Err(Error::Eval(msg)) && msg@ == m),
        vin_result(vin@) matches Ok(k) ==> lookup_outcome(held@, source, VehicleLookupKind::Vin, k, upper_seq(trim(market@)), r),
{
    match VehicleLookupRequest::by_vin(source, vin, market) {
        Ok(request) => {
            let router = VehicleLookupRouter::new(ModeledVehicleBridge::fixture(), LiveVehicleBridge);
            router.lookup(held, &request)
        },
        Err(e) => Err(e),
    }
}

/// Whether a fixture record answers a normalized lookup.
pub open spec fn fixture_matches(r: VehicleRecordView, kind: VehicleLookupKind, key: Seq<char>, market: Seq<char>) -> bool {
    &&& r.market == market
    &&& match kind {
        VehicleLookupKind::Plate => r.plate == Some(key),
        VehicleLookupKind::Vin => r.vin == Some(key),
    }
}

/// What the default router answers for a normalized lookup.
pub open spec fn lookup_outcome(
    held: Set<Seq<char>>,
    source: VehicleSource,
    kind: VehicleLookupKind,
    key: Seq<char>,
    market: Seq<char>,
    r: Result<VehicleRecord>,
) -> bool {
    if source == VehicleSource::Modeled {
        let rs = fixture_records();
        if exists|i: int| 0 <= i < rs.len() && fixture_matches(#[trigger] rs[i], kind, key, market) {
            exists|i: int| {
                &&& 0 <= i < rs.len()
                &&& fixture_matches(#[trigger] rs[i], kind, key, market)
                &&& forall|j: int| 0 <= j < i ==> !fixture_matches(#[trigger] rs[j], kind, key, market)
                &&& r matches Ok(rec) && rec@ == rs[i]
            }
        } else {
            r matches Err(Error::Eval(msg)) && msg@ == "no modeled vehicle for "@ + key
        }
    } else if !held.contains("net/http"@) {
        r matches Err(Error::CapabilityDenied { capability: c }) && c@ == "net/http"@
    } else {
        r matches Err(Error::Eval(msg)) && msg@ == unconfigured_message(source)
    }
}

/// Looks up a vehicle identity by plate.
pub fn vehicle_by_plate(held: &CapabilitySet, source: VehicleSource, plate: &str, market: &str) -> (r: Result<VehicleId>)
    ensures
        plate_result(plate@, market@) matches Err(m) ==> (r matches Err(Error::Eval(msg)) && msg@ == m),
        plate_result(plate@, market@) matches Ok(k) ==> exists|rec: Result<VehicleRecord>| {
            &&& lookup_outcome(held@, source, VehicleLookupKind::Plate, k, upper_seq(trim(market@)), rec)
            &&& match rec {
                Ok(v) => r matches Ok(id) && id.namespace@ == v.vehicle.namespace@ && id.key@ == v.vehicle.key@,
                Err(e) => r == Err::<VehicleId, Error>(e),
            }
        },
{
    let rec = vehicle_record_by_plate(held, source, plate, market);
    let ghost g = rec;
    match rec {
        Ok(record) => Ok(record.vehicle),
        Err(e) => Err(e),
    }
}

/// Looks up a vehicle identity by VIN.
pub fn vehicle_by_vin(held: &CapabilitySet, source: VehicleSource, vin: &str, market: &str) -> (r: Result<VehicleId>)
    ensures
        vin_result(vin@) matches Err(m) ==> (r matches Err(Error::Eval(msg)) && msg@ == m),
        vin_result(vin@) matches Ok(k) ==> exists|rec: Result<VehicleRecord>| {
            &&& lookup_outcome(held@, source, VehicleLookupKind::Vin, k, upper_seq(trim(market@)), rec)
            &&& match rec {
                Ok(v) => r matches Ok(id) && id.namespace@ == v.vehicle.namespace@ && id.key@ == v.vehicle.key@,
                Err(e) => r == Err::<VehicleId, Error>(e),
            }
        },
{
    let rec = vehicle_record_by_vin(held, source, vin, market);
    let ghost g = rec;
    match rec {
        Ok(record) => Ok(record.vehicle),
        Err(e) => Err(e),
    }
}

} // verus!
