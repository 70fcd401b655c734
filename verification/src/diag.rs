//! Modeled ECU inventory, diagnostic requests, and the diagnostic fabric
//! that serves them through a session's capability grants.

use vstd::prelude::*;

use crate::domain::{
    AUTO_CONTROL_EXEC, AUTO_DIAGNOSTICS_READ, AUTO_TRANSPORT_CONNECT, BrandCaps, Dtc, DtcView,
    VehicleId, dtc_views, duplicate_dtcs,
};
use crate::frame::{DtcFrame, UdsFrame, UdsFrameView, decode_frame, encode_frame, lemma_decode_encode};
use crate::kernel::{
    CapabilityName, CapabilitySet, CodecId, Error, Result, cap_set, cap_views, denied, holds_cap,
};
use crate::session::AutoSession;
use crate::status::{DtcStatus, spec_status_from_byte, spec_status_to_byte};
use crate::uds_expr::{flag_entry, text_entry};
use crate::controls::{ControlChecks, RequestControls, control_problem, validate_controls};
use crate::text::{chars_of, push_str, str_eq, string_of};
use crate::expr::{
    Expr, ExprView, Symbol, dict_expr, entry_views, expr_views, key, key_view, list_expr, qualified_text,
    string_field,
};
use crate::numtext::{hex_upper, hex_upper_chars, zero_pad};
use crate::request::{
    entry_fields, field_views, keyed_args, keyed_expr, keyed_fields, keyed_items, keyed_view, lemma_keyed_round_trip,
    lookup, lookup_field, map_args, pair_views,
};

verus! {

/// What a PID value says: identifier, label, value text and unit.
pub type PidView = (Seq<char>, Seq<char>, Seq<char>, Seq<char>);

/// One modeled PID value exposed by an ECU.
#[derive(Clone, Debug, PartialEq, Eq)]
pub struct PidValue {
    /// PID identifier, such as `rpm`.
    pub pid: String,
    /// Human-facing PID label.
    pub name: String,
    /// Synthetic value text.
    pub value: String,
    /// Unit label.
    pub unit: String,
}

impl View for PidValue {
    type V = PidView;

    open spec fn view(&self) -> PidView {
        (self.pid@, self.name@, self.value@, self.unit@)
    }
}

impl PidValue {
    /// Builds a modeled PID value.
    pub fn new(pid: &str, name: &str, value: &str, unit: &str) -> (r: Self)
        ensures
            r@ == (pid@, name@, value@, unit@),
    {
        PidValue { pid: pid.to_owned(), name: name.to_owned(), value: value.to_owned(), unit: unit.to_owned() }
    }

    /// A copy of this value.
    pub fn duplicate(&self) -> (r: Self)
        ensures
            r@ == self@,
    {
        PidValue { pid: self.pid.clone(), name: self.name.clone(), value: self.value.clone(), unit: self.unit.clone() }
    }
}

/// The views of a list of PID values.
pub open spec fn pid_views(v: Seq<PidValue>) -> Seq<PidView> {
    v.map_values(|p: PidValue| p@)
}

/// Copies a list of PID values.
pub fn duplicate_pids(v: &[PidValue]) -> (r: Vec<PidValue>)
    ensures
        pid_views(r@) == pid_views(v@),
{
    let mut r: Vec<PidValue> = Vec::new();
    let mut i: usize = 0;
    while i < v.len()
        invariant
            i <= v@.len(),
            r@.len() == i,
            forall|k: int| 0 <= k < i ==> (#[trigger] r@[k])@ == v@[k]@,
        decreases v@.len() - i,
    {
        r.push(v[i].duplicate());
        i = i + 1;
    }
    assert(pid_views(r@) =~= pid_views(v@));
    r
}

/// What a freeze frame says: its trouble code and the captured values.
pub type FreezeFrameView = (Seq<char>, Seq<PidView>);

/// Freeze-frame values captured for one modeled DTC.
#[derive(Clone, Debug, PartialEq, Eq)]
pub struct FreezeFrame {
    /// DTC associated with the freeze frame.
    pub dtc: String,
    /// PID values captured with the DTC.
    pub values: Vec<PidValue>,
}

impl View for FreezeFrame {
    type V = FreezeFrameView;

    open spec fn view(&self) -> FreezeFrameView {
        (self.dtc@, pid_views(self.values@))
    }
}

impl FreezeFrame {
    /// Builds a modeled freeze-frame record.
    pub fn new(dtc: &str, values: Vec<PidValue>) -> (r: Self)
        ensures
            r.dtc@ == dtc@,
            r.values@ == values@,
    {
        FreezeFrame { dtc: dtc.to_owned(), values }
    }

    /// A copy of this record.
    pub fn duplicate(&self) -> (r: Self)
        ensures
            r@ == self@,
    {
        FreezeFrame { dtc: self.dtc.clone(), values: duplicate_pids(self.values.as_slice()) }
    }
}

/// The views of a list of freeze frames.
pub open spec fn frame_views(v: Seq<FreezeFrame>) -> Seq<FreezeFrameView> {
    v.map_values(|f: FreezeFrame| f@)
}

/// Copies a list of freeze frames.
pub fn duplicate_frames(v: &[FreezeFrame]) -> (r: Vec<FreezeFrame>)
    ensures
        frame_views(r@) == frame_views(v@),
{
    let mut r: Vec<FreezeFrame> = Vec::new();
    let mut i: usize = 0;
    while i < v.len()
        invariant
            i <= v@.len(),
            r@.len() == i,
            forall|k: int| 0 <= k < i ==> (#[trigger] r@[k])@ == v@[k]@,
        decreases v@.len() - i,
    {
        r.push(v[i].duplicate());
        i = i + 1;
    }
    assert(frame_views(r@) =~= frame_views(v@));
    r
}

/// What an ECU holds: name, family, trouble codes, PIDs and freeze frames.
pub type EcuView = (Seq<char>, Seq<char>, Seq<DtcView>, Seq<PidView>, Seq<FreezeFrameView>);

/// Synthetic ECU data served by the diagnostic fabric.
#[derive(Clone, Debug, PartialEq, Eq)]
pub struct ModeledEcu {
    /// ECU identifier used in diagnostic requests.
    pub name: String,
    /// Human-facing ECU family.
    pub family: String,
    /// Modeled DTCs exposed by this ECU.
    pub dtcs: Vec<Dtc>,
    /// Modeled PID values exposed by this ECU.
    pub pids: Vec<PidValue>,
    /// Modeled freeze-frame records exposed by this ECU.
    pub freeze_frames: Vec<FreezeFrame>,
}

impl View for ModeledEcu {
    type V = EcuView;

    open spec fn view(&self) -> EcuView {
        (self.name@, self.family@, dtc_views(self.dtcs@), pid_views(self.pids@), frame_views(self.freeze_frames@))
    }
}

/// The error text for a PID an ECU does not expose.
pub open spec fn unknown_pid_message(pid: Seq<char>, ecu: Seq<char>) -> Seq<char> {
    "unknown PID "@ + pid + " on ECU "@ + ecu
}

/// The error text for an ECU the vehicle does not carry.
pub open spec fn unknown_ecu_message(ecu: Seq<char>) -> Seq<char> {
    "unknown ECU "@ + ecu
}

impl ModeledEcu {
    /// Builds a modeled ECU.
    pub fn new(name: &str, family: &str, dtcs: Vec<Dtc>, pids: Vec<PidValue>, freeze_frames: Vec<FreezeFrame>) -> (r: Self)
        ensures
            r.name@ == name@,
            r.family@ == family@,
            r.dtcs@ == dtcs@,
            r.pids@ == pids@,
            r.freeze_frames@ == freeze_frames@,
    {
        ModeledEcu { name: name.to_owned(), family: family.to_owned(), dtcs, pids, freeze_frames }
    }

    /// Returns the first PID with identifier `pid`.
    pub fn pid(&self, pid: &str) -> (r: Result<&PidValue>)
        ensures
            r is Ok <==> exists|i: int| 0 <= i < self.pids@.len() && (#[trigger] self.pids@[i]).pid@ == pid@,
            r matches Ok(v) ==> exists|i: int| {
                &&& 0 <= i < self.pids@.len()
                &&& *v == self.pids@[i]
                &&& v.pid@ == pid@
                &&& forall|j: int| 0 <= j < i ==> (#[trigger] self.pids@[j]).pid@ != pid@
            },
            r is Err ==> (r matches Err(Error::Eval(msg)) && msg@ == unknown_pid_message(pid@, self.name@)),
    {
        let mut i: usize = 0;
        while i < self.pids.len()
            invariant
                i <= self.pids@.len(),
                forall|j: int| 0 <= j < i ==> (#[trigger] self.pids@[j]).pid@ != pid@,
            decreases self.pids@.len() - i,
        {
            if str_eq(self.pids[i].pid.as_str(), pid) {
                return Ok(&self.pids[i]);
            }
            i = i + 1;
        }
        let mut text = chars_of("unknown PID ");
        push_str(&mut text, pid);
        push_str(&mut text, " on ECU ");
        push_str(&mut text, self.name.as_str());
        Err(Error::Eval(string_of(text.as_slice())))
    }

    /// A copy of this ECU.
    pub fn duplicate(&self) -> (r: Self)
        ensures
            r@ == self@,
    {
        ModeledEcu {
            name: self.name.clone(),
            family: self.family.clone(),
            dtcs: duplicate_dtcs(self.dtcs.as_slice()),
            pids: duplicate_pids(self.pids.as_slice()),
            freeze_frames: duplicate_frames(self.freeze_frames.as_slice()),
        }
    }
}

/// What a vehicle holds: identity namespace and key, VIN and ECUs.
pub type VehicleView = (Seq<char>, Seq<char>, Seq<char>, Seq<EcuView>);

/// Synthetic vehicle data served by a diagnostic fabric.
#[derive(Clone, Debug, PartialEq, Eq)]
pub struct ModeledVehicle {
    /// Modeled vehicle identity.
    pub vehicle: VehicleId,
    /// Synthetic VIN label.
    pub vin: String,
    /// Modeled ECUs installed in the vehicle.
    pub ecus: Vec<ModeledEcu>,
}

/// The views of a list of ECUs.
pub open spec fn ecu_views(v: Seq<ModeledEcu>) -> Seq<EcuView> {
    v.map_values(|e: ModeledEcu| e@)
}

impl View for ModeledVehicle {
    type V = VehicleView;

    open spec fn view(&self) -> VehicleView {
        (self.vehicle.namespace@, self.vehicle.key@, self.vin@, ecu_views(self.ecus@))
    }
}

/// The modeled engine ECU of the fixture vehicle.
pub open spec fn fixture_engine_view() -> EcuView {
    (
        "ME97"@,
        "engine-control"@,
        seq![
            ("powertrain"@, "P0100"@, "modeled air-flow range fault"@, spec_status_from_byte(0x89)),
            ("powertrain"@, "P0301"@, "modeled cylinder-one misfire"@, spec_status_from_byte(0x0D)),
        ],
        seq![
            ("rpm"@, "engine speed"@, "1840"@, "rpm"@),
            ("coolant"@, "coolant temperature"@, "88"@, "celsius"@),
        ],
        seq![("P0301"@, seq![("rpm"@, "engine speed"@, "1720"@, "rpm"@), ("load"@, "calculated load"@, "42"@, "percent"@)])],
    )
}

/// The modeled body ECU of the fixture vehicle.
pub open spec fn fixture_body_view() -> EcuView {
    (
        "BCM1"@,
        "body-control"@,
        seq![("body"@, "B1000"@, "modeled lamp circuit status"@, spec_status_from_byte(0x08))],
        seq![("voltage"@, "system voltage"@, "12.4"@, "volt"@)],
        seq![("B1000"@, seq![("voltage"@, "system voltage"@, "11.9"@, "volt"@)])],
    )
}

/// The default synthetic vehicle.
pub open spec fn fixture_vehicle_view() -> VehicleView {
    ("fixture"@, "vehicle-alpha"@, "VIN-FIXTURE-ALPHA"@, seq![fixture_engine_view(), fixture_body_view()])
}

/// The status bytes carried by the fixture's encoded DTC response, read
/// back through the UDS codec.
fn fixture_dtc_statuses() -> (r: Vec<u8>)
    ensures
        r@ == seq![0x89u8, 0x0Du8],
{
    let frame = UdsFrame::ReadDtcResponse {
        subfunction: 0x02,
        status_availability_mask: 0xFF,
        dtcs: vec![
            DtcFrame { raw_code: [0x01, 0x00, 0x00], status: 0x89 },
            DtcFrame { raw_code: [0x03, 0x01, 0x00], status: 0x0D },
        ],
    };
    proof {
        lemma_decode_encode(frame@);
        assert(frame@ matches UdsFrameView::ReadDtcResponse { dtcs: d, .. } && d.len() == 2 && d[0].status == 0x89
            && d[1].status == 0x0D);
    }
    let bytes = encode_frame(&frame);
    match decode_frame(CodecId(0), bytes.as_slice()) {
        Ok(UdsFrame::ReadDtcResponse { dtcs, .. }) => {
            assert(dtcs@.len() == 2);
            assert(dtcs@[0]@.status == 0x89);
            assert(dtcs@[1]@.status == 0x0D);
            let mut r: Vec<u8> = Vec::new();
            let mut i: usize = 0;
            while i < dtcs.len()
                invariant
                    i <= dtcs@.len(),
                    r@.len() == i,
                    forall|k: int| 0 <= k < i ==> r@[k] == (#[trigger] dtcs@[k]).status,
                decreases dtcs@.len() - i,
            {
                r.push(dtcs[i].status);
                i = i + 1;
            }
            assert(r@ =~= seq![0x89u8, 0x0Du8]);
            r
        },
        _ => {
            proof {
                assert(false);
            }
            Vec::new()
        },
    }
}

fn fixture_engine_ecu() -> (r: ModeledEcu)
    ensures
        r@ == fixture_engine_view(),
{
    let statuses = fixture_dtc_statuses();
    let dtcs = vec![
        Dtc::with_status("powertrain", "P0100", "modeled air-flow range fault", DtcStatus::from_byte(statuses[0])),
        Dtc::with_status("powertrain", "P0301", "modeled cylinder-one misfire", DtcStatus::from_byte(statuses[1])),
    ];
    let pids = vec![
        PidValue::new("rpm", "engine speed", "1840", "rpm"),
        PidValue::new("coolant", "coolant temperature", "88", "celsius"),
    ];
    let frame = FreezeFrame::new(
        "P0301",
        vec![PidValue::new("rpm", "engine speed", "1720", "rpm"), PidValue::new("load", "calculated load", "42", "percent")],
    );
    let freeze_frames = vec![frame];
    let r = ModeledEcu::new("ME97", "engine-control", dtcs, pids, freeze_frames);
    assert(dtc_views(r.dtcs@) =~= fixture_engine_view().2);
    assert(pid_views(r.pids@) =~= fixture_engine_view().3);
    assert(pid_views(r.freeze_frames@[0].values@) =~= fixture_engine_view().4[0].1);
    assert(frame_views(r.freeze_frames@) =~= fixture_engine_view().4);
    r
}

fn fixture_body_ecu() -> (r: ModeledEcu)
    ensures
        r@ == fixture_body_view(),
{
    let dtcs = vec![Dtc::with_status("body", "B1000", "modeled lamp circuit status", DtcStatus::from_byte(0x08))];
    let pids = vec![PidValue::new("voltage", "system voltage", "12.4", "volt")];
    let frame = FreezeFrame::new("B1000", vec![PidValue::new("voltage", "system voltage", "11.9", "volt")]);
    let freeze_frames = vec![frame];
    let r = ModeledEcu::new("BCM1", "body-control", dtcs, pids, freeze_frames);
    assert(dtc_views(r.dtcs@) =~= fixture_body_view().2);
    assert(pid_views(r.pids@) =~= fixture_body_view().3);
    assert(pid_views(r.freeze_frames@[0].values@) =~= fixture_body_view().4[0].1);
    assert(frame_views(r.freeze_frames@) =~= fixture_body_view().4);
    r
}

impl ModeledVehicle {
    /// Builds a modeled vehicle.
    pub fn new(vehicle: VehicleId, vin: &str, ecus: Vec<ModeledEcu>) -> (r: Self)
        ensures
            r.vehicle == vehicle,
            r.vin@ == vin@,
            r.ecus@ == ecus@,
    {
        ModeledVehicle { vehicle, vin: vin.to_owned(), ecus }
    }

    /// Builds the default synthetic vehicle fixture.
    pub fn fixture() -> (r: Self)
        ensures
            r@ == fixture_vehicle_view(),
    {
        let r = Self::new(
            VehicleId::new("fixture", "vehicle-alpha"),
            "VIN-FIXTURE-ALPHA",
            vec![fixture_engine_ecu(), fixture_body_ecu()],
        );
        assert(ecu_views(r.ecus@) =~= fixture_vehicle_view().3);
        r
    }

    /// Returns the first ECU named `name`.
    pub fn ecu(&self, name: &str) -> (r: Result<&ModeledEcu>)
        ensures
            r is Ok <==> exists|i: int| 0 <= i < self.ecus@.len() && (#[trigger] self.ecus@[i]).name@ == name@,
            r matches Ok(e) ==> exists|i: int| {
                &&& 0 <= i < self.ecus@.len()
                &&& *e == self.ecus@[i]
                &&& e.name@ == name@
                &&& forall|j: int| 0 <= j < i ==> (#[trigger] self.ecus@[j]).name@ != name@
            },
            r is Err ==> (r matches Err(Error::Eval(msg)) && msg@ == unknown_ecu_message(name@)),
    {
        let mut i: usize = 0;
        while i < self.ecus.len()
            invariant
                i <= self.ecus@.len(),
                forall|j: int| 0 <= j < i ==> (#[trigger] self.ecus@[j]).name@ != name@,
            decreases self.ecus@.len() - i,
        {
            if str_eq(self.ecus[i].name.as_str(), name) {
                return Ok(&self.ecus[i]);
            }
            i = i + 1;
        }
        let mut text = chars_of("unknown ECU ");
        push_str(&mut text, name);
        Err(Error::Eval(string_of(text.as_slice())))
    }

    /// A copy of this vehicle.
    pub fn duplicate(&self) -> (r: Self)
        ensures
            r@ == self@,
    {
        let mut ecus: Vec<ModeledEcu> = Vec::new();
        let mut i: usize = 0;
        while i < self.ecus.len()
            invariant
                i <= self.ecus@.len(),
                ecus@.len() == i,
                forall|k: int| 0 <= k < i ==> (#[trigger] ecus@[k])@ == self.ecus@[k]@,
            decreases self.ecus@.len() - i,
        {
            ecus.push(self.ecus[i].duplicate());
            i = i + 1;
        }
        let r = ModeledVehicle { vehicle: self.vehicle.duplicate(), vin: self.vin.clone(), ecus };
        assert(ecu_views(r.ecus@) =~= ecu_views(self.ecus@));
        r
    }
}

/// Diagnostic operation accepted by the automotive fabric.
#[derive(Clone, Debug, PartialEq, Eq)]
pub enum DiagnosticRequest {
    /// Read all DTCs for an ECU.
    ReadDtcs {
        /// ECU identifier.
        ecu: String,
    },
    /// Read one PID value from an ECU.
    ReadPid {
        /// ECU identifier.
        ecu: String,
        /// PID identifier.
        pid: String,
    },
    /// Read freeze-frame records for an ECU.
    FreezeFrame {
        /// ECU identifier.
        ecu: String,
    },
    /// Controlled diagnostic operation.
    Control {
        /// Operation symbol text.
        operation: String,
        /// ECU identifier.
        ecu: String,
    },
}

/// The ECU a request names.
pub open spec fn request_ecu(r: DiagnosticRequest) -> Seq<char> {
    match r {
        DiagnosticRequest::ReadDtcs { ecu } => ecu@,
        DiagnosticRequest::ReadPid { ecu, .. } => ecu@,
        DiagnosticRequest::FreezeFrame { ecu } => ecu@,
        DiagnosticRequest::Control { ecu, .. } => ecu@,
    }
}

impl DiagnosticRequest {
    /// Returns the capability required by this operation: reads need the
    /// diagnostics-read capability, controlled operations the control one.
    pub fn required_capability(&self) -> (r: &'static str)
        ensures
            r@ == (if *self is Control { "auto/control/exec"@ } else { "auto/diagnostics/read"@ }),
    {
        match self {
            DiagnosticRequest::Control { .. } => AUTO_CONTROL_EXEC,
            _ => AUTO_DIAGNOSTICS_READ,
        }
    }

    /// Returns the ECU identifier.
    pub fn ecu(&self) -> (r: &str)
        ensures
            r@ == request_ecu(*self),
    {
        match self {
            DiagnosticRequest::ReadDtcs { ecu } => ecu.as_str(),
            DiagnosticRequest::ReadPid { ecu, .. } => ecu.as_str(),
            DiagnosticRequest::FreezeFrame { ecu } => ecu.as_str(),
            DiagnosticRequest::Control { ecu, .. } => ecu.as_str(),
        }
    }
}

/// Whether a realize call may use `capability`: the caller context holds
/// every capability the request asks to keep and `capability` itself, and
/// the session's grants narrowed to the requested ones still hold it.
pub open spec fn may_use(session: AutoSession, held: Set<Seq<char>>, allowed: Seq<CapabilityName>, capability: Seq<char>) -> bool {
    &&& forall|i: int| 0 <= i < allowed.len() ==> held.contains(#[trigger] allowed[i]@)
    &&& held.contains(capability)
    &&& cap_set(session.grants@).intersect(cap_set(allowed)).contains(capability)
}

/// The capability whose absence refuses a realize call: the first request
/// capability the caller does not hold, else `capability` itself.
pub open spec fn refused_capability(held: Set<Seq<char>>, allowed: Seq<CapabilityName>, capability: Seq<char>) -> Seq<char> {
    if exists|i: int| 0 <= i < allowed.len() && !held.contains(#[trigger] allowed[i]@) {
        let i = choose|i: int| 0 <= i < allowed.len() && !held.contains(#[trigger] allowed[i]@) && forall|j: int|
            0 <= j < i ==> held.contains(#[trigger] allowed[j]@);
        allowed[i]@
    } else {
        capability
    }
}

/// Checks that a realize call may use `capability`, refusing with the
/// capability that is missing.
pub fn require_diminished(
    session: &AutoSession,
    held: &CapabilitySet,
    allowed: &[CapabilityName],
    capability: &CapabilityName,
) -> (r: Result<()>)
    ensures
        r is Ok <==> may_use(*session, held@, allowed@, capability@),
        r is Err ==> (r matches Err(Error::CapabilityDenied { capability: c })
            && c@ == refused_capability(held@, allowed@, capability@)),
{
    let mut i: usize = 0;
    while i < allowed.len()
        invariant
            i <= allowed@.len(),
            forall|j: int| 0 <= j < i ==> held@.contains(#[trigger] allowed@[j]@),
        decreases allowed@.len() - i,
    {
        if !held.contains(&allowed[i]) {
            proof {
                let w = choose|k: int| 0 <= k < allowed@.len() && !held@.contains(#[trigger] allowed@[k]@) && forall|j: int|
                    0 <= j < k ==> held@.contains(#[trigger] allowed@[j]@);
                assert(0 <= i < allowed@.len() && !held@.contains(allowed@[i as int]@) && forall|j: int|
                    0 <= j < i ==> held@.contains(#[trigger] allowed@[j]@));
                if w < i {
                    assert(held@.contains(allowed@[w]@));
                } else if w > i {
                    assert(held@.contains(allowed@[i as int]@));
                }
            }
            return Err(denied(&allowed[i]));
        }
        i = i + 1;
    }
    if !held.contains(capability) {
        return Err(denied(capability));
    }
    let active = session.diminished_grants(allowed);
    if active.contains(capability) {
        Ok(())
    } else {
        Err(denied(capability))
    }
}

/// Whether realize may answer a request needing `required`: a local-bridge
/// session must first be allowed the transport-connect capability.
pub open spec fn may_answer(session: AutoSession, held: Set<Seq<char>>, allowed: Seq<CapabilityName>, required: Seq<char>) -> bool {
    &&& session.transport is LocalBridge ==> may_use(session, held, allowed, "auto/transport/connect"@)
    &&& may_use(session, held, allowed, required)
}

/// The capability check realize makes before answering a diagnostic
/// request: the transport grant for a local bridge, then `required`.
pub fn authorize_request(
    session: &AutoSession,
    held: &CapabilitySet,
    allowed: &[CapabilityName],
    required: &CapabilityName,
) -> (r: Result<()>)
    ensures
        r is Ok <==> may_answer(*session, held@, allowed@, required@),
        r is Err ==> (r matches Err(Error::CapabilityDenied { capability: c }) && (
            if session.transport is LocalBridge && !may_use(*session, held@, allowed@, "auto/transport/connect"@) {
                c@ == refused_capability(held@, allowed@, "auto/transport/connect"@)
            } else {
                c@ == refused_capability(held@, allowed@, required@)
            })),
{
    if session.transport.is_local_bridge() {
        let transport = CapabilityName::new(AUTO_TRANSPORT_CONNECT);
        match require_diminished(session, held, allowed, &transport) {
            Ok(()) => {},
            Err(e) => {
                return Err(e);
            },
        }
    }
    require_diminished(session, held, allowed, required)
}

/// Local automotive diagnostic fabric backed by synthetic ECU data.
#[derive(Clone, Debug)]
pub struct AutoDiagFabric {
    session: AutoSession,
    vehicle: ModeledVehicle,
}

impl View for AutoDiagFabric {
    type V = (AutoSession, ModeledVehicle);

    closed spec fn view(&self) -> (AutoSession, ModeledVehicle) {
        (self.session, self.vehicle)
    }
}

/// Whether the session may read diagnostics.
pub open spec fn may_read(session: AutoSession) -> bool {
    holds_cap(session.grants@, "auto/diagnostics/read"@)
}

impl AutoDiagFabric {
    /// Builds a diagnostic fabric over a session and modeled vehicle.
    pub fn new(session: AutoSession, vehicle: ModeledVehicle) -> (r: Self)
        ensures
            r@ == (session, vehicle),
    {
        AutoDiagFabric { session, vehicle }
    }

    /// Builds a diagnostic fabric over the modeled session and the default
    /// synthetic vehicle.
    pub fn fixture() -> (r: Self)
        ensures
            is_modeled_session(r@.0),
            r@.1@ == fixture_vehicle_view(),
    {
        auto_fabric(modeled_session())
    }

    /// Returns the active automotive session.
    pub fn session(&self) -> (r: &AutoSession)
        ensures
            *r == self@.0,
    {
        &self.session
    }

    /// Returns the modeled vehicle served by the fabric.
    pub fn vehicle(&self) -> (r: &ModeledVehicle)
        ensures
            *r == self@.1,
    {
        &self.vehicle
    }

    fn require_read(&self) -> (r: Result<()>)
        ensures
            r is Ok <==> may_read(self@.0),
            r is Err ==> (r matches Err(Error::CapabilityDenied { capability: c }) && c@ == "auto/diagnostics/read"@),
    {
        let capability = CapabilityName::new(AUTO_DIAGNOSTICS_READ);
        if self.session.has_grant(&capability) {
            Ok(())
        } else {
            Err(denied(&capability))
        }
    }

    /// Reads the DTCs of the first ECU named `ecu`, when the session holds
    /// the diagnostics-read grant.
    pub fn read_dtcs(&self, ecu: &str) -> (r: Result<Vec<Dtc>>)
        ensures
            !may_read(self@.0) ==> (r matches Err(Error::CapabilityDenied { capability: c }) && c@ == "auto/diagnostics/read"@),
            may_read(self@.0) ==> (r is Ok <==> exists|i: int| 0 <= i < self@.1.ecus@.len() && (#[trigger] self@.1.ecus@[i]).name@ == ecu@),
            r matches Ok(dtcs) ==> exists|i: int| {
                &&& 0 <= i < self@.1.ecus@.len()
                &&& (#[trigger] self@.1.ecus@[i]).name@ == ecu@
                &&& forall|j: int| 0 <= j < i ==> (#[trigger] self@.1.ecus@[j]).name@ != ecu@
                &&& dtc_views(dtcs@) == dtc_views(self@.1.ecus@[i].dtcs@)
            },
            may_read(self@.0) && r is Err ==> (r matches Err(Error::Eval(msg)) && msg@ == unknown_ecu_message(ecu@)),
    {
        proof {
            let v = self@.1;
            assert(v == self.vehicle);
            assert(self@.0 == self.session);
        }
        match self.require_read() {
            Ok(()) => {},
            Err(e) => {
                return Err(e);
            },
        }
        let looked = self.vehicle.ecu(ecu);
        proof {
            let v = self@.1;
            assert(v == self.vehicle);
            assert(looked is Ok <==> exists|i: int| 0 <= i < v.ecus@.len() && (#[trigger] v.ecus@[i]).name@ == ecu@);
        }
        match looked {
            Ok(found) => Ok(duplicate_dtcs(found.dtcs.as_slice())),
            Err(e) => Err(e),
        }
    }

    /// Reads one PID of the first ECU named `ecu`, when the session holds
    /// the diagnostics-read grant.
    pub fn read_pid(&self, ecu: &str, pid: &str) -> (r: Result<PidValue>)
        ensures
            !may_read(self@.0) ==> (r matches Err(Error::CapabilityDenied { capability: c }) && c@ == "auto/diagnostics/read"@),
            r matches Ok(v) ==> exists|i: int| {
                &&& 0 <= i < self@.1.ecus@.len()
                &&& (#[trigger] self@.1.ecus@[i]).name@ == ecu@
                &&& forall|j: int| 0 <= j < i ==> (#[trigger] self@.1.ecus@[j]).name@ != ecu@
                &&& exists|p: int| {
                    &&& 0 <= p < self@.1.ecus@[i].pids@.len()
                    &&& (#[trigger] self@.1.ecus@[i].pids@[p]).pid@ == pid@
                    &&& forall|q: int| 0 <= q < p ==> (#[trigger] self@.1.ecus@[i].pids@[q]).pid@ != pid@
                    &&& v@ == self@.1.ecus@[i].pids@[p]@
                }
            },
            may_read(self@.0) && r is Err ==> (r matches Err(Error::Eval(msg)) && (
                (!exists|i: int| 0 <= i < self@.1.ecus@.len() && (#[trigger] self@.1.ecus@[i]).name@ == ecu@) && msg@ == unknown_ecu_message(ecu@)
                || exists|i: int| {
                    &&& 0 <= i < self@.1.ecus@.len()
                    &&& (#[trigger] self@.1.ecus@[i]).name@ == ecu@
                    &&& forall|j: int| 0 <= j < i ==> (#[trigger] self@.1.ecus@[j]).name@ != ecu@
                    &&& forall|q: int| 0 <= q < self@.1.ecus@[i].pids@.len() ==> (#[trigger] self@.1.ecus@[i].pids@[q]).pid@ != pid@
                    &&& msg@ == unknown_pid_message(pid@, ecu@)
                })),
    {
        proof {
            let v = self@.1;
            assert(v == self.vehicle);
            assert(self@.0 == self.session);
        }
        match self.require_read() {
            Ok(()) => {},
            Err(e) => {
                return Err(e);
            },
        }
        match self.vehicle.ecu(ecu) {
            Ok(found) => match found.pid(pid) {
                Ok(v) => Ok(v.duplicate()),
                Err(e) => Err(e),
            },
            Err(e) => Err(e),
        }
    }

    /// Reads the freeze frames of the first ECU named `ecu`, when the
    /// session holds the diagnostics-read grant.
    pub fn freeze_frames(&self, ecu: &str) -> (r: Result<Vec<FreezeFrame>>)
        ensures
            !may_read(self@.0) ==> (r matches Err(Error::CapabilityDenied { capability: c }) && c@ == "auto/diagnostics/read"@),
            may_read(self@.0) ==> (r is Ok <==> exists|i: int| 0 <= i < self@.1.ecus@.len() && (#[trigger] self@.1.ecus@[i]).name@ == ecu@),
            r matches Ok(frames) ==> exists|i: int| {
                &&& 0 <= i < self@.1.ecus@.len()
                &&& (#[trigger] self@.1.ecus@[i]).name@ == ecu@
                &&& forall|j: int| 0 <= j < i ==> (#[trigger] self@.1.ecus@[j]).name@ != ecu@
                &&& frame_views(frames@) == frame_views(self@.1.ecus@[i].freeze_frames@)
            },
            may_read(self@.0) && r is Err ==> (r matches Err(Error::Eval(msg)) && msg@ == unknown_ecu_message(ecu@)),
    {
        proof {
            let v = self@.1;
            assert(v == self.vehicle);
            assert(self@.0 == self.session);
        }
        match self.require_read() {
            Ok(()) => {},
            Err(e) => {
                return Err(e);
            },
        }
        match self.vehicle.ecu(ecu) {
            Ok(found) => Ok(duplicate_frames(found.freeze_frames.as_slice())),
            Err(e) => Err(e),
        }
    }
}

/// Whether `s` is the modeled fixture session: vehicle `fixture` /
/// `vehicle-alpha`, brand `fixture-brand`, modeled placement, and only the
/// diagnostics-read grant on both the brand and the session.
pub open spec fn is_modeled_session(s: AutoSession) -> bool {
    &&& s.vehicle.namespace@ == "fixture"@
    &&& s.vehicle.key@ == "vehicle-alpha"@
    &&& s.brand.brand@ == "fixture-brand"@
    &&& cap_views(s.brand.capabilities@) == seq!["auto/diagnostics/read"@]
    &&& s.transport is Modeled
    &&& cap_views(s.grants@) == seq!["auto/diagnostics/read"@]
}

/// The modeled fixture session.
pub fn modeled_session() -> (r: AutoSession)
    ensures
        is_modeled_session(r),
{
    let grants = vec![CapabilityName::new(AUTO_DIAGNOSTICS_READ)];
    let brand_grants = vec![CapabilityName::new(AUTO_DIAGNOSTICS_READ)];
    assert(cap_views(grants@) =~= seq!["auto/diagnostics/read"@]);
    assert(cap_views(brand_grants@) =~= seq!["auto/diagnostics/read"@]);
    AutoSession::modeled(
        VehicleId::new("fixture", "vehicle-alpha"),
        BrandCaps::new("fixture-brand", brand_grants),
        grants,
    )
}

/// Builds a diagnostic fabric for `session` over the default vehicle.
pub fn auto_fabric(session: AutoSession) -> (r: AutoDiagFabric)
    ensures
        r@.0 == session,
        r@.1@ == fixture_vehicle_view(),
{
    AutoDiagFabric::new(session, ModeledVehicle::fixture())
}

/// What a diagnostic request asks for.
pub enum DiagRequestView {
    /// Read all DTCs of an ECU.
    ReadDtcs(Seq<char>),
    /// Read one PID of an ECU.
    ReadPid(Seq<char>, Seq<char>),
    /// Read the freeze frames of an ECU.
    FreezeFrame(Seq<char>),
    /// A controlled operation on an ECU.
    Control(Seq<char>, Seq<char>),
}

/// The view of a request.
pub open spec fn diag_view(r: DiagnosticRequest) -> DiagRequestView {
    match r {
        DiagnosticRequest::ReadDtcs { ecu } => DiagRequestView::ReadDtcs(ecu@),
        DiagnosticRequest::ReadPid { ecu, pid } => DiagRequestView::ReadPid(ecu@, pid@),
        DiagnosticRequest::FreezeFrame { ecu } => DiagRequestView::FreezeFrame(ecu@),
        DiagnosticRequest::Control { operation, ecu } => DiagRequestView::Control(operation@, ecu@),
    }
}

/// Whether an operator names a controlled operation.
pub open spec fn is_control_op(op: Seq<char>) -> bool {
    ||| op == "auto/code"@
    ||| op == "auto/coding"@
    ||| op == "auto/service"@
    ||| op == "auto/service-function"@
    ||| op == "auto/actuate"@
    ||| op == "auto/actuation"@
}

/// The request an operator and its fields make: the `ecu` field is needed
/// first, then the operator picks the request.
pub open spec fn diag_decide(op: Seq<char>, fs: Seq<(Seq<char>, Seq<char>)>) -> core::result::Result<DiagRequestView, Seq<char>> {
    match lookup(fs, "ecu"@) {
        None => Err("missing diagnostic request field ecu"@),
        Some(ecu) => if op == "auto/read-dtc"@ || op == "auto/read-dtcs"@ {
            Ok(DiagRequestView::ReadDtcs(ecu))
        } else if op == "auto/read-pid"@ {
            match lookup(fs, "pid"@) {
                Some(pid) => Ok(DiagRequestView::ReadPid(ecu, pid)),
                None => Err("missing diagnostic request field pid"@),
            }
        } else if op == "auto/freeze-frame"@ {
            Ok(DiagRequestView::FreezeFrame(ecu))
        } else if is_control_op(op) {
            Ok(DiagRequestView::Control(op, ecu))
        } else {
            Err("unsupported diagnostic operation "@ + op)
        },
    }
}

/// The fields of diagnostic keyword arguments.
pub open spec fn diag_fields(args: Seq<ExprView>) -> core::result::Result<Seq<(Seq<char>, Seq<char>)>, Seq<char>> {
    keyed_fields(
        args,
        "diagnostic request arguments must be key/value pairs"@,
        "diagnostic request field key must be a symbol or string"@,
        "diagnostic request field value must be a string or symbol"@,
    )
}

/// The request an operator and its keyword arguments make.
pub open spec fn diag_parts(op: Seq<char>, args: Seq<ExprView>) -> core::result::Result<DiagRequestView, Seq<char>> {
    match diag_fields(args) {
        Ok(fs) => diag_decide(op, fs),
        Err(m) => Err(m),
    }
}

/// The request a call, list, vector or map expression spells.
pub open spec fn parse_diagnostic(e: ExprView) -> core::result::Result<DiagRequestView, Seq<char>> {
    match e {
        ExprView::Call(op, args) => match *op {
            ExprView::Sym(s) => diag_parts(qualified_text(s), args),
            _ => Err("diagnostic request operator must be a symbol"@),
        },
        ExprView::List(items) => diag_items(items),
        ExprView::Vector(items) => diag_items(items),
        ExprView::Dict(es) => match entry_fields(
            es,
            "diagnostic request field key must be a symbol or string"@,
            "diagnostic request field value must be a string or symbol"@,
        ) {
            Err(m) => Err(m),
            Ok(fs) => match lookup(fs, "op"@) {
                None => Err("missing diagnostic request field op"@),
                Some(op) => diag_decide(op, fs),
            },
        },
        _ => Err("diagnostic request must be a call, list, vector, or map"@),
    }
}

/// The request a list of items spells: the operator symbol first.
pub open spec fn diag_items(items: Seq<ExprView>) -> core::result::Result<DiagRequestView, Seq<char>> {
    if items.len() == 0 {
        Err("empty diagnostic request"@)
    } else {
        match items[0] {
            ExprView::Sym(s) => diag_parts(qualified_text(s), items.drop_first()),
            _ => Err("diagnostic request operator must be a symbol"@),
        }
    }
}

fn diag_error(text: &str) -> (e: Error)
    ensures
        e matches Error::Eval(m) && m@ == text@,
{
    Error::Eval(text.to_owned())
}

fn decide_request(op: String, fields: &[(String, String)]) -> (r: Result<DiagnosticRequest>)
    ensures
        match diag_decide(op@, field_views(fields@)) {
            Ok(v) => r matches Ok(q) && diag_view(q) == v,
            Err(m) => r matches Err(Error::Eval(e)) && e@ == m,
        },
{
    let ecu = match lookup_field(fields, "ecu") {
        Some(e) => e.clone(),
        None => {
            return Err(diag_error("missing diagnostic request field ecu"));
        },
    };
    let o = op.as_str();
    if str_eq(o, "auto/read-dtc") || str_eq(o, "auto/read-dtcs") {
        Ok(DiagnosticRequest::ReadDtcs { ecu })
    } else if str_eq(o, "auto/read-pid") {
        match lookup_field(fields, "pid") {
            Some(p) => Ok(DiagnosticRequest::ReadPid { ecu, pid: p.clone() }),
            None => Err(diag_error("missing diagnostic request field pid")),
        }
    } else if str_eq(o, "auto/freeze-frame") {
        Ok(DiagnosticRequest::FreezeFrame { ecu })
    } else if str_eq(o, "auto/code") || str_eq(o, "auto/coding") || str_eq(o, "auto/service") || str_eq(
        o,
        "auto/service-function",
    ) || str_eq(o, "auto/actuate") || str_eq(o, "auto/actuation") {
        Ok(DiagnosticRequest::Control { operation: op, ecu })
    } else {
        let mut text = chars_of("unsupported diagnostic operation ");
        push_str(&mut text, o);
        Err(Error::Eval(string_of(text.as_slice())))
    }
}

fn parse_parts(op: String, args: &[Expr]) -> (r: Result<DiagnosticRequest>)
    ensures
        match diag_parts(op@, expr_views(args@)) {
            Ok(v) => r matches Ok(q) && diag_view(q) == v,
            Err(m) => r matches Err(Error::Eval(e)) && e@ == m,
        },
{
    let fields = match keyed_args(
        args,
        "diagnostic request arguments must be key/value pairs",
        "diagnostic request field key must be a symbol or string",
        "diagnostic request field value must be a string or symbol",
    ) {
        Ok(f) => f,
        Err(e) => {
            return Err(e);
        },
    };
    decide_request(op, fields.as_slice())
}

fn parse_items(items: &Vec<Expr>) -> (r: Result<DiagnosticRequest>)
    ensures
        match diag_items(expr_views(items@)) {
            Ok(v) => r matches Ok(q) && diag_view(q) == v,
            Err(m) => r matches Err(Error::Eval(e)) && e@ == m,
        },
{
    if items.len() == 0 {
        return Err(diag_error("empty diagnostic request"));
    }
    match &items[0] {
        Expr::Symbol(s) => {
            let mut rest: Vec<Expr> = Vec::new();
            let ghost iv = expr_views(items@);
            let mut i: usize = 1;
            while i < items.len()
                invariant
                    1 <= i <= items@.len(),
                    iv == expr_views(items@),
                    expr_views(rest@) == iv.subrange(1, i as int),
                decreases items@.len() - i,
            {
                let ghost before = expr_views(rest@);
                rest.push(copy_expr(&items[i]));
                assert(expr_views(rest@) =~= before.push(iv[i as int]));
                assert(iv.subrange(1, i + 1) =~= iv.subrange(1, i as int).push(iv[i as int]));
                i = i + 1;
            }
            assert(iv.subrange(1, iv.len() as int) =~= iv.drop_first());
            parse_parts(s.as_qualified_str(), rest.as_slice())
        },
        _ => Err(diag_error("diagnostic request operator must be a symbol")),
    }
}

/// A copy of an expression.
pub fn copy_expr(e: &Expr) -> (r: Expr)
    ensures
        r@ == e@,
    decreases e,
{
    match e {
        Expr::Nil => Expr::Nil,
        Expr::Bool(b) => Expr::Bool(*b),
        Expr::Number(n) => Expr::Number(crate::expr::NumberLiteral { domain: n.domain.duplicate(), canonical: n.canonical.clone() }),
        Expr::String(s) => Expr::String(s.clone()),
        Expr::Bytes(b) => {
            let mut out: Vec<u8> = Vec::new();
            let mut i: usize = 0;
            while i < b.len()
                invariant
                    i <= b@.len(),
                    out@ == b@.subrange(0, i as int),
                decreases b@.len() - i,
            {
                out.push(b[i]);
                i = i + 1;
                assert(out@ =~= b@.subrange(0, i as int));
            }
            assert(b@.subrange(0, b@.len() as int) =~= b@);
            Expr::Bytes(out)
        },
        Expr::Symbol(s) => Expr::Symbol(s.duplicate()),
        Expr::List(items) => {
            proof {
                crate::expr::lemma_list_view(*items);
            }
            list_expr(copy_items(items))
        },
        Expr::Vector(items) => {
            proof {
                crate::expr::lemma_vector_view(*items);
            }
            crate::expr::vector_expr(copy_items(items))
        },
        Expr::Dict(entries) => {
            proof {
                crate::expr::lemma_dict_view(*entries);
            }
            let out = copy_entries(entries);
            dict_expr(out)
        },
        Expr::Call { operator, args } => {
            proof {
                crate::expr::lemma_call_view(*operator, *args);
            }
            let op = copy_expr(operator);
            let a = copy_items(args);
            proof {
                crate::expr::lemma_call_view(Box::new(op), a);
            }
            Expr::Call { operator: Box::new(op), args: a }
        },
        Expr::Extension { tag, payload } => Expr::Extension { tag: tag.duplicate(), payload: Box::new(copy_expr(payload)) },
    }
}

/// Copies of a list of map entries.
pub fn copy_entries(entries: &Vec<(Expr, Expr)>) -> (r: Vec<(Expr, Expr)>)
    ensures
        entry_views(r@) == entry_views(entries@),
    decreases entries,
{
    let mut out: Vec<(Expr, Expr)> = Vec::new();
    let mut i: usize = 0;
    while i < entries.len()
        invariant
            i <= entries@.len(),
            out@.len() == i,
            forall|k: int| 0 <= k < i ==> (#[trigger] out@[k]).0@ == entries@[k].0@ && out@[k].1@ == entries@[k].1@,
        decreases entries@.len() - i,
    {
        assert(decreases_to!(entries => entries@[i as int]));
        assert(decreases_to!(entries@[i as int] => entries@[i as int].0));
        assert(decreases_to!(entries@[i as int] => entries@[i as int].1));
        let a = copy_expr(&entries[i].0);
        let b = copy_expr(&entries[i].1);
        out.push((a, b));
        i = i + 1;
    }
    assert(entry_views(out@) =~= entry_views(entries@));
    out
}

/// Copies of a list of expressions.
pub fn copy_items(items: &Vec<Expr>) -> (r: Vec<Expr>)
    ensures
        expr_views(r@) == expr_views(items@),
    decreases items,
{
    let mut out: Vec<Expr> = Vec::new();
    let mut i: usize = 0;
    while i < items.len()
        invariant
            i <= items@.len(),
            out@.len() == i,
            forall|k: int| 0 <= k < i ==> (#[trigger] out@[k])@ == items@[k]@,
        decreases items@.len() - i,
    {
        assert(decreases_to!(items => items@[i as int]));
        out.push(copy_expr(&items[i]));
        i = i + 1;
    }
    assert(expr_views(out@) =~= expr_views(items@));
    out
}

impl DiagnosticRequest {
    /// Parses a diagnostic request from a call, list, vector or map.
    pub fn parse(expr: &Expr) -> (r: Result<Self>)
        ensures
            match parse_diagnostic(expr@) {
                Ok(v) => r matches Ok(q) && diag_view(q) == v,
                Err(m) => r matches Err(Error::Eval(e)) && e@ == m,
            },
    {
        match expr {
            Expr::Call { operator, args } => {
                proof {
                    crate::expr::lemma_call_view(*operator, *args);
                }
                match &**operator {
                    Expr::Symbol(s) => parse_parts(s.as_qualified_str(), args.as_slice()),
                    _ => Err(diag_error("diagnostic request operator must be a symbol")),
                }
            },
            Expr::List(items) => {
                proof {
                    crate::expr::lemma_list_view(*items);
                }
                parse_items(items)
            },
            Expr::Vector(items) => {
                proof {
                    crate::expr::lemma_vector_view(*items);
                }
                parse_items(items)
            },
            Expr::Dict(entries) => {
                proof {
                    crate::expr::lemma_dict_view(*entries);
                }
                let fields = match map_args(
                    entries.as_slice(),
                    "diagnostic request field key must be a symbol or string",
                    "diagnostic request field value must be a string or symbol",
                ) {
                    Ok(f) => f,
                    Err(e) => {
                        return Err(e);
                    },
                };
                let op = match lookup_field(fields.as_slice(), "op") {
                    Some(o) => o.clone(),
                    None => {
                        return Err(diag_error("missing diagnostic request field op"));
                    },
                };
                decide_request(op, fields.as_slice())
            },
            _ => Err(diag_error("diagnostic request must be a call, list, vector, or map")),
        }
    }
}

/// Builds an `auto/read-dtc` request.
pub fn read_dtcs_expr(ecu: &str) -> (r: Expr)
    ensures
        r@ == keyed_view(seq![ExprView::Sym((Some("auto"@), "read-dtc"@))], seq![("ecu"@, ecu@)]),
{
    let fields: &[(&str, &str)] = &[("ecu", ecu)];
    assert(pair_views(fields@) =~= seq![("ecu"@, ecu@)]);
    keyed_expr(Symbol::qualified("auto", "read-dtc"), fields)
}

/// Builds an `auto/read-pid` request.
pub fn read_pid_expr(ecu: &str, pid: &str) -> (r: Expr)
    ensures
        r@ == keyed_view(seq![ExprView::Sym((Some("auto"@), "read-pid"@))], seq![("ecu"@, ecu@), ("pid"@, pid@)]),
{
    let fields: &[(&str, &str)] = &[("ecu", ecu), ("pid", pid)];
    assert(pair_views(fields@) =~= seq![("ecu"@, ecu@), ("pid"@, pid@)]);
    keyed_expr(Symbol::qualified("auto", "read-pid"), fields)
}

/// Builds an `auto/freeze-frame` request.
pub fn freeze_frame_expr(ecu: &str) -> (r: Expr)
    ensures
        r@ == keyed_view(seq![ExprView::Sym((Some("auto"@), "freeze-frame"@))], seq![("ecu"@, ecu@)]),
{
    let fields: &[(&str, &str)] = &[("ecu", ecu)];
    assert(pair_views(fields@) =~= seq![("ecu"@, ecu@)]);
    keyed_expr(Symbol::qualified("auto", "freeze-frame"), fields)
}

/// Builds an `auto/code` request.
pub fn code_expr(ecu: &str) -> (r: Expr)
    ensures
        r@ == keyed_view(seq![ExprView::Sym((Some("auto"@), "code"@))], seq![("ecu"@, ecu@)]),
{
    let fields: &[(&str, &str)] = &[("ecu", ecu)];
    assert(pair_views(fields@) =~= seq![("ecu"@, ecu@)]);
    keyed_expr(Symbol::qualified("auto", "code"), fields)
}

/// The keyword fields of a built request read back unchanged.
proof fn lemma_diag_fields_round_trip(fs: Seq<(Seq<char>, Seq<char>)>)
    requires
        forall|i: int| 0 <= i < fs.len() ==> (#[trigger] fs[i]).0.len() == 0 || fs[i].0[0] != ':',
    ensures
        diag_fields(keyed_items(fs)) == Ok::<Seq<(Seq<char>, Seq<char>)>, Seq<char>>(fs),
{
    lemma_keyed_round_trip(
        fs,
        "diagnostic request arguments must be key/value pairs"@,
        "diagnostic request field key must be a symbol or string"@,
        "diagnostic request field value must be a string or symbol"@,
    );
}

/// Every request the builders make parses back as what it asks for.
pub proof fn lemma_diag_builders_parse(ecu: Seq<char>, pid: Seq<char>)
    ensures
        parse_diagnostic(keyed_view(seq![ExprView::Sym((Some("auto"@), "read-dtc"@))], seq![("ecu"@, ecu)]))
            == Ok::<DiagRequestView, Seq<char>>(DiagRequestView::ReadDtcs(ecu)),
        parse_diagnostic(keyed_view(seq![ExprView::Sym((Some("auto"@), "read-pid"@))], seq![("ecu"@, ecu), ("pid"@, pid)]))
            == Ok::<DiagRequestView, Seq<char>>(DiagRequestView::ReadPid(ecu, pid)),
        parse_diagnostic(keyed_view(seq![ExprView::Sym((Some("auto"@), "freeze-frame"@))], seq![("ecu"@, ecu)]))
            == Ok::<DiagRequestView, Seq<char>>(DiagRequestView::FreezeFrame(ecu)),
        parse_diagnostic(keyed_view(seq![ExprView::Sym((Some("auto"@), "code"@))], seq![("ecu"@, ecu)]))
            == Ok::<DiagRequestView, Seq<char>>(DiagRequestView::Control("auto/code"@, ecu)),
{
    reveal_strlit("ecu");
    reveal_strlit("pid");
    reveal_strlit("auto");
    reveal_strlit("read-dtc");
    reveal_strlit("read-pid");
    reveal_strlit("freeze-frame");
    reveal_strlit("code");
    reveal_strlit("auto/read-dtc");
    reveal_strlit("auto/read-dtcs");
    reveal_strlit("auto/read-pid");
    reveal_strlit("auto/freeze-frame");
    reveal_strlit("auto/code");
    assert("pid"@[0] != "ecu"@[0]);
    assert("auto/read-pid"@[10] != "auto/read-dtc"@[10]);
    let one = seq![("ecu"@, ecu)];
    let two = seq![("ecu"@, ecu), ("pid"@, pid)];
    lemma_diag_fields_round_trip(one);
    lemma_diag_fields_round_trip(two);
    assert(two.drop_last() =~= one);
    assert(one.drop_last() =~= Seq::<(Seq<char>, Seq<char>)>::empty());
    let ops = seq![
        ExprView::Sym((Some("auto"@), "read-dtc"@)),
        ExprView::Sym((Some("auto"@), "read-pid"@)),
        ExprView::Sym((Some("auto"@), "freeze-frame"@)),
        ExprView::Sym((Some("auto"@), "code"@)),
    ];
    assert((seq![ops[0]] + keyed_items(one)).drop_first() =~= keyed_items(one));
    assert((seq![ops[1]] + keyed_items(two)).drop_first() =~= keyed_items(two));
    assert((seq![ops[2]] + keyed_items(one)).drop_first() =~= keyed_items(one));
    assert((seq![ops[3]] + keyed_items(one)).drop_first() =~= keyed_items(one));
    assert(qualified_text((Some("auto"@), "read-dtc"@)) =~= "auto/read-dtc"@);
    assert(qualified_text((Some("auto"@), "read-pid"@)) =~= "auto/read-pid"@);
    assert(qualified_text((Some("auto"@), "freeze-frame"@)) =~= "auto/freeze-frame"@);
    assert(qualified_text((Some("auto"@), "code"@)) =~= "auto/code"@);
}

/// The report of one trouble code: system, code, description, and the
/// status byte as `0x` and two uppercase hex digits.
pub open spec fn dtc_report_view(d: DtcView) -> ExprView {
    ExprView::Dict(
        seq![
            text_entry("system"@, d.0),
            text_entry("code"@, d.1),
            text_entry("description"@, d.2),
            text_entry("status-byte"@, "0x"@ + zero_pad(hex_upper(spec_status_to_byte(d.3) as nat), 2)),
        ],
    )
}

/// The report of one PID value.
pub open spec fn pid_report_view(p: PidView) -> ExprView {
    ExprView::Dict(seq![text_entry("pid"@, p.0), text_entry("name"@, p.1), text_entry("value"@, p.2), text_entry("unit"@, p.3)])
}

/// The report of one freeze frame.
pub open spec fn frame_report_view(f: FreezeFrameView) -> ExprView {
    ExprView::Dict(
        seq![text_entry("dtc"@, f.0), (key_view("values"@), ExprView::List(f.1.map_values(|p: PidView| pid_report_view(p))))],
    )
}

/// The inventory line of one ECU.
pub open spec fn inventory_view(e: EcuView) -> ExprView {
    ExprView::Dict(seq![text_entry("ecu"@, e.0), text_entry("family"@, e.1)])
}

/// The first ECU named `name`.
pub open spec fn first_ecu(ecus: Seq<EcuView>, name: Seq<char>) -> Option<EcuView>
    decreases ecus.len(),
{
    if ecus.len() == 0 {
        None
    } else if ecus[0].0 == name {
        Some(ecus[0])
    } else {
        first_ecu(ecus.drop_first(), name)
    }
}

/// The first PID with identifier `pid`.
pub open spec fn first_pid(pids: Seq<PidView>, pid: Seq<char>) -> Option<PidView>
    decreases pids.len(),
{
    if pids.len() == 0 {
        None
    } else if pids[0].0 == pid {
        Some(pids[0])
    } else {
        first_pid(pids.drop_first(), pid)
    }
}

/// The reply to a diagnostic request on a vehicle, or the error text.
pub open spec fn diag_response(v: VehicleView, q: DiagRequestView) -> core::result::Result<ExprView, Seq<char>> {
    match q {
        DiagRequestView::ReadDtcs(ecu) => match first_ecu(v.3, ecu) {
            None => Err(unknown_ecu_message(ecu)),
            Some(e) => Ok(
                ExprView::Dict(
                    seq![
                        text_entry("operation"@, "auto/read-dtc"@),
                        text_entry("vehicle-vin"@, v.2),
                        text_entry("ecu"@, e.0),
                        (key_view("dtcs"@), ExprView::List(e.2.map_values(|d: DtcView| dtc_report_view(d)))),
                        (key_view("inventory"@), ExprView::List(v.3.map_values(|x: EcuView| inventory_view(x)))),
                    ],
                ),
            ),
        },
        DiagRequestView::ReadPid(ecu, pid) => match first_ecu(v.3, ecu) {
            None => Err(unknown_ecu_message(ecu)),
            Some(e) => match first_pid(e.3, pid) {
                None => Err(unknown_pid_message(pid, e.0)),
                Some(p) => Ok(
                    ExprView::Dict(
                        seq![
                            text_entry("operation"@, "auto/read-pid"@),
                            text_entry("vehicle-vin"@, v.2),
                            text_entry("ecu"@, e.0),
                            (key_view("pid"@), pid_report_view(p)),
                        ],
                    ),
                ),
            },
        },
        DiagRequestView::FreezeFrame(ecu) => match first_ecu(v.3, ecu) {
            None => Err(unknown_ecu_message(ecu)),
            Some(e) => Ok(
                ExprView::Dict(
                    seq![
                        text_entry("operation"@, "auto/freeze-frame"@),
                        text_entry("vehicle-vin"@, v.2),
                        text_entry("ecu"@, e.0),
                        (key_view("freeze-frames"@), ExprView::List(e.4.map_values(|f: FreezeFrameView| frame_report_view(f)))),
                    ],
                ),
            ),
        },
        DiagRequestView::Control(op, ecu) => Ok(
            ExprView::Dict(seq![text_entry("operation"@, op), text_entry("ecu"@, ecu), flag_entry("accepted"@, true)]),
        ),
    }
}

/// `first_ecu` finds the first match.
proof fn lemma_first_ecu(ecus: Seq<EcuView>, name: Seq<char>, i: int)
    requires
        0 <= i < ecus.len(),
        ecus[i].0 == name,
        forall|j: int| 0 <= j < i ==> (#[trigger] ecus[j]).0 != name,
    ensures
        first_ecu(ecus, name) == Some(ecus[i]),
    decreases i,
{
    if i > 0 {
        let rest = ecus.drop_first();
        assert forall|j: int| 0 <= j < i - 1 implies (#[trigger] rest[j]).0 != name by {
            assert(rest[j] == ecus[j + 1]);
        }
        lemma_first_ecu(rest, name, i - 1);
    }
}

/// `first_ecu` finds nothing when nothing matches.
proof fn lemma_no_ecu(ecus: Seq<EcuView>, name: Seq<char>)
    requires
        forall|j: int| 0 <= j < ecus.len() ==> (#[trigger] ecus[j]).0 != name,
    ensures
        first_ecu(ecus, name) is None,
    decreases ecus.len(),
{
    if ecus.len() > 0 {
        let rest = ecus.drop_first();
        assert forall|j: int| 0 <= j < rest.len() implies (#[trigger] rest[j]).0 != name by {
            assert(rest[j] == ecus[j + 1]);
        }
        lemma_no_ecu(rest, name);
    }
}

/// `first_pid` finds the first match.
proof fn lemma_first_pid(pids: Seq<PidView>, pid: Seq<char>, i: int)
    requires
        0 <= i < pids.len(),
        pids[i].0 == pid,
        forall|j: int| 0 <= j < i ==> (#[trigger] pids[j]).0 != pid,
    ensures
        first_pid(pids, pid) == Some(pids[i]),
    decreases i,
{
    if i > 0 {
        let rest = pids.drop_first();
        assert forall|j: int| 0 <= j < i - 1 implies (#[trigger] rest[j]).0 != pid by {
            assert(rest[j] == pids[j + 1]);
        }
        lemma_first_pid(rest, pid, i - 1);
    }
}

/// `first_pid` finds nothing when nothing matches.
proof fn lemma_no_pid(pids: Seq<PidView>, pid: Seq<char>)
    requires
        forall|j: int| 0 <= j < pids.len() ==> (#[trigger] pids[j]).0 != pid,
    ensures
        first_pid(pids, pid) is None,
    decreases pids.len(),
{
    if pids.len() > 0 {
        let rest = pids.drop_first();
        assert forall|j: int| 0 <= j < rest.len() implies (#[trigger] rest[j]).0 != pid by {
            assert(rest[j] == pids[j + 1]);
        }
        lemma_no_pid(rest, pid);
    }
}

/// The report of one trouble code.
pub fn dtc_expr(dtc: &Dtc) -> (r: Expr)
    ensures
        r@ == dtc_report_view(dtc@),
{
    let mut status = chars_of("0x");
    let mut digits = hex_upper_chars(dtc.status.to_byte() as u64, 2);
    status.append(&mut digits);
    let status_text = string_of(status.as_slice());
    let entries = vec![
        string_field("system", dtc.system.as_str()),
        string_field("code", dtc.code.as_str()),
        string_field("description", dtc.description.as_str()),
        string_field("status-byte", status_text.as_str()),
    ];
    let r = dict_expr(entries);
    assert(entry_views(entries@) =~= seq![
        text_entry("system"@, dtc@.0),
        text_entry("code"@, dtc@.1),
        text_entry("description"@, dtc@.2),
        text_entry("status-byte"@, "0x"@ + zero_pad(hex_upper(spec_status_to_byte(dtc@.3) as nat), 2)),
    ]);
    r
}

impl PidValue {
    /// The report of this value.
    pub fn to_expr(&self) -> (r: Expr)
        ensures
            r@ == pid_report_view(self@),
    {
        let entries = vec![
            string_field("pid", self.pid.as_str()),
            string_field("name", self.name.as_str()),
            string_field("value", self.value.as_str()),
            string_field("unit", self.unit.as_str()),
        ];
        let r = dict_expr(entries);
        assert(entry_views(entries@) =~= seq![
            text_entry("pid"@, self@.0),
            text_entry("name"@, self@.1),
            text_entry("value"@, self@.2),
            text_entry("unit"@, self@.3),
        ]);
        r
    }
}

impl FreezeFrame {
    /// The report of this freeze frame.
    pub fn to_expr(&self) -> (r: Expr)
        ensures
            r@ == frame_report_view(self@),
    {
        let mut items: Vec<Expr> = Vec::new();
        let mut i: usize = 0;
        while i < self.values.len()
            invariant
                i <= self.values@.len(),
                items@.len() == i,
                forall|k: int| 0 <= k < i ==> (#[trigger] items@[k])@ == pid_report_view(self.values@[k]@),
            decreases self.values@.len() - i,
        {
            items.push(self.values[i].to_expr());
            i = i + 1;
        }
        assert(expr_views(items@) =~= pid_views(self.values@).map_values(|p: PidView| pid_report_view(p)));
        let entries = vec![string_field("dtc", self.dtc.as_str()), (key("values"), list_expr(items))];
        let r = dict_expr(entries);
        assert(entry_views(entries@) =~= seq![
            text_entry("dtc"@, self@.0),
            (key_view("values"@), ExprView::List(self@.1.map_values(|p: PidView| pid_report_view(p)))),
        ]);
        r
    }
}

impl ModeledEcu {
    /// The inventory line of this ECU.
    pub fn inventory_expr(&self) -> (r: Expr)
        ensures
            r@ == inventory_view(self@),
    {
        let entries = vec![string_field("ecu", self.name.as_str()), string_field("family", self.family.as_str())];
        let r = dict_expr(entries);
        assert(entry_views(entries@) =~= seq![text_entry("ecu"@, self@.0), text_entry("family"@, self@.1)]);
        r
    }
}

impl ModeledVehicle {
    /// Inventory lines for every ECU, in order.
    pub fn inventory(&self) -> (r: Vec<Expr>)
        ensures
            expr_views(r@) == ecu_views(self.ecus@).map_values(|x: EcuView| inventory_view(x)),
    {
        let mut items: Vec<Expr> = Vec::new();
        let mut i: usize = 0;
        while i < self.ecus.len()
            invariant
                i <= self.ecus@.len(),
                items@.len() == i,
                forall|k: int| 0 <= k < i ==> (#[trigger] items@[k])@ == inventory_view(self.ecus@[k]@),
            decreases self.ecus@.len() - i,
        {
            items.push(self.ecus[i].inventory_expr());
            i = i + 1;
        }
        assert(expr_views(items@) =~= ecu_views(self.ecus@).map_values(|x: EcuView| inventory_view(x)));
        items
    }
}

/// The checks the diagnostic site makes of request controls.
pub fn diag_checks() -> (r: ControlChecks)
    ensures
        r.label@ == "auto diagnostic request"@,
        r.refuse_deadline,
        r.refuse_zero_limit,
{
    ControlChecks { label: "auto diagnostic request", refuse_deadline: true, refuse_zero_limit: true }
}

impl AutoDiagFabric {
    /// The reply to a diagnostic request from the modeled vehicle.
    pub fn respond(&self, request: &DiagnosticRequest) -> (r: Result<Expr>)
        ensures
            match diag_response(self@.1@, diag_view(*request)) {
                Ok(v) => r matches Ok(e) && e@ == v,
                Err(m) => r matches Err(Error::Eval(x)) && x@ == m,
            },
    {
        proof {
            let v = self@.1;
            assert(v == self.vehicle);
        }
        let vin = self.vehicle.vin.as_str();
        match request {
            DiagnosticRequest::Control { operation, ecu } => {
                let entries = vec![
                    string_field("operation", operation.as_str()),
                    string_field("ecu", ecu.as_str()),
                    crate::expr::bool_field("accepted", true),
                ];
                let r = dict_expr(entries);
                assert(entry_views(entries@) =~= seq![
                    text_entry("operation"@, operation@),
                    text_entry("ecu"@, ecu@),
                    flag_entry("accepted"@, true),
                ]);
                Ok(r)
            },
            _ => {
                let name = request.ecu();
                let ghost ev = ecu_views(self.vehicle.ecus@);
                let found = match self.vehicle.ecu(name) {
                    Ok(e) => e,
                    Err(x) => {
                        proof {
                            assert forall|j: int| 0 <= j < ev.len() implies (#[trigger] ev[j]).0 != name@ by {
                                assert(ev[j].0 == self.vehicle.ecus@[j].name@);
                            }
                            lemma_no_ecu(ev, name@);
                        }
                        return Err(x);
                    },
                };
                proof {
                    let i = choose|i: int| {
                        &&& 0 <= i < self.vehicle.ecus@.len()
                        &&& *found == self.vehicle.ecus@[i]
                        &&& found.name@ == name@
                        &&& forall|j: int| 0 <= j < i ==> (#[trigger] self.vehicle.ecus@[j]).name@ != name@
                    };
                    assert forall|j: int| 0 <= j < i implies (#[trigger] ev[j]).0 != name@ by {
                        assert(ev[j].0 == self.vehicle.ecus@[j].name@);
                    }
                    lemma_first_ecu(ev, name@, i);
                }
                match request {
                    DiagnosticRequest::ReadDtcs { .. } => {
                        let mut dtcs: Vec<Expr> = Vec::new();
                        let mut i: usize = 0;
                        while i < found.dtcs.len()
                            invariant
                                i <= found.dtcs@.len(),
                                dtcs@.len() == i,
                                forall|k: int| 0 <= k < i ==> (#[trigger] dtcs@[k])@ == dtc_report_view(found.dtcs@[k]@),
                            decreases found.dtcs@.len() - i,
                        {
                            dtcs.push(dtc_expr(&found.dtcs[i]));
                            i = i + 1;
                        }
                        assert(expr_views(dtcs@) =~= found@.2.map_values(|d: DtcView| dtc_report_view(d)));
                        let inventory = self.vehicle.inventory();
                        let entries = vec![
                            string_field("operation", "auto/read-dtc"),
                            string_field("vehicle-vin", vin),
                            string_field("ecu", found.name.as_str()),
                            (key("dtcs"), list_expr(dtcs)),
                            (key("inventory"), list_expr(inventory)),
                        ];
                        let r = dict_expr(entries);
                        assert(entry_views(entries@) =~= seq![
                            text_entry("operation"@, "auto/read-dtc"@),
                            text_entry("vehicle-vin"@, self@.1@.2),
                            text_entry("ecu"@, found@.0),
                            (key_view("dtcs"@), ExprView::List(found@.2.map_values(|d: DtcView| dtc_report_view(d)))),
                            (key_view("inventory"@), ExprView::List(self@.1@.3.map_values(|x: EcuView| inventory_view(x)))),
                        ]);
                        Ok(r)
                    },
                    DiagnosticRequest::ReadPid { pid, .. } => {
                        let ghost pv = pid_views(found.pids@);
                        let value = match found.pid(pid.as_str()) {
                            Ok(v) => v,
                            Err(x) => {
                                proof {
                                    assert forall|j: int| 0 <= j < pv.len() implies (#[trigger] pv[j]).0 != pid@ by {
                                        assert(pv[j].0 == found.pids@[j].pid@);
                                    }
                                    lemma_no_pid(pv, pid@);
                                }
                                return Err(x);
                            },
                        };
                        proof {
                            let i = choose|i: int| {
                                &&& 0 <= i < found.pids@.len()
                                &&& *value == found.pids@[i]
                                &&& value.pid@ == pid@
                                &&& forall|j: int| 0 <= j < i ==> (#[trigger] found.pids@[j]).pid@ != pid@
                            };
                            assert forall|j: int| 0 <= j < i implies (#[trigger] pv[j]).0 != pid@ by {
                                assert(pv[j].0 == found.pids@[j].pid@);
                            }
                            lemma_first_pid(pv, pid@, i);
                        }
                        let entries = vec![
                            string_field("operation", "auto/read-pid"),
                            string_field("vehicle-vin", vin),
                            string_field("ecu", found.name.as_str()),
                            (key("pid"), value.to_expr()),
                        ];
                        let r = dict_expr(entries);
                        assert(entry_views(entries@) =~= seq![
                            text_entry("operation"@, "auto/read-pid"@),
                            text_entry("vehicle-vin"@, self@.1@.2),
                            text_entry("ecu"@, found@.0),
                            (key_view("pid"@), pid_report_view(value@)),
                        ]);
                        Ok(r)
                    },
                    _ => {
                        let mut frames: Vec<Expr> = Vec::new();
                        let mut i: usize = 0;
                        while i < found.freeze_frames.len()
                            invariant
                                i <= found.freeze_frames@.len(),
                                frames@.len() == i,
                                forall|k: int| 0 <= k < i ==> (#[trigger] frames@[k])@ == frame_report_view(found.freeze_frames@[k]@),
                            decreases found.freeze_frames@.len() - i,
                        {
                            frames.push(found.freeze_frames[i].to_expr());
                            i = i + 1;
                        }
                        assert(expr_views(frames@) =~= found@.4.map_values(|f: FreezeFrameView| frame_report_view(f)));
                        let entries = vec![
                            string_field("operation", "auto/freeze-frame"),
                            string_field("vehicle-vin", vin),
                            string_field("ecu", found.name.as_str()),
                            (key("freeze-frames"), list_expr(frames)),
                        ];
                        let r = dict_expr(entries);
                        assert(entry_views(entries@) =~= seq![
                            text_entry("operation"@, "auto/freeze-frame"@),
                            text_entry("vehicle-vin"@, self@.1@.2),
                            text_entry("ecu"@, found@.0),
                            (key_view("freeze-frames"@), ExprView::List(found@.4.map_values(|f: FreezeFrameView| frame_report_view(f)))),
                        ]);
                        Ok(r)
                    },
                }
            },
        }
    }

    /// Answers an evaluation request: the controls are checked, the
    /// expression parsed, the capabilities checked, then the vehicle read.
    pub fn answer(&self, controls: &RequestControls, held: &CapabilitySet, allowed: &[CapabilityName], expr: &Expr) -> (r: Result<Expr>)
        ensures
            control_problem("auto diagnostic request"@, true, true, *controls) matches Some(m) ==> (r matches Err(Error::Eval(x)) && x@ == m),
            control_problem("auto diagnostic request"@, true, true, *controls) is None ==> match parse_diagnostic(expr@) {
                Err(m) => r matches Err(Error::Eval(x)) && x@ == m,
                Ok(q) => {
                    let required = if q is Control { "auto/control/exec"@ } else { "auto/diagnostics/read"@ };
                    if may_answer(self@.0, held@, allowed@, required) {
                        match diag_response(self@.1@, q) {
                            Ok(v) => r matches Ok(e) && e@ == v,
                            Err(m) => r matches Err(Error::Eval(x)) && x@ == m,
                        }
                    } else {
                        r matches Err(Error::CapabilityDenied { .. })
                    }
                },
            },
    {
        proof {
            let v = self@.0;
            assert(v == self.session);
        }
        let checks = diag_checks();
        match validate_controls(&checks, controls) {
            Ok(()) => {},
            Err(e) => {
                return Err(e);
            },
        }
        let request = match DiagnosticRequest::parse(expr) {
            Ok(q) => q,
            Err(e) => {
                return Err(e);
            },
        };
        let required = CapabilityName::new(request.required_capability());
        match authorize_request(&self.session, held, allowed, &required) {
            Ok(()) => {},
            Err(e) => {
                return Err(e);
            },
        }
        self.respond(&request)
    }
}

} // verus!
