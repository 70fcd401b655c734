//! Automotive domain records: identities, trouble codes, lanes, effect
//! classes, operation capabilities, transports and site manifests.

use vstd::prelude::*;

use crate::kernel::{CapabilityName, cap_views, duplicate_caps};
use crate::status::{DtcStatus, spec_status_from_byte};

verus! {

/// Read access to modeled diagnostic values and decoded trouble codes.
pub const AUTO_DIAGNOSTICS_READ: &'static str = "auto/diagnostics/read";

/// Read access to modeled vehicle telemetry.
pub const AUTO_TELEMETRY_READ: &'static str = "auto/telemetry/read";

/// Execute access for vehicle-control effects.
pub const AUTO_CONTROL_EXEC: &'static str = "auto/control/exec";

/// Write access for shop-side service records and procedures.
pub const AUTO_SERVICE_WRITE: &'static str = "auto/service/write";

/// Read access to automotive site manifests.
pub const AUTO_MANIFEST_READ: &'static str = "auto/manifest/read";

/// Connect access for automotive transport endpoints.
pub const AUTO_TRANSPORT_CONNECT: &'static str = "auto/transport/connect";

/// Access for placing supplier parts orders.
pub const AUTO_ORDER: &'static str = "auto/order";

/// Access for writing modeled ECU flash payloads.
pub const AUTO_FLASH: &'static str = "auto/flash";

/// The stable automotive capability strings, in order.
pub open spec fn spec_capability_texts() -> Seq<Seq<char>> {
    seq![
        "auto/diagnostics/read"@,
        "auto/telemetry/read"@,
        "auto/control/exec"@,
        "auto/service/write"@,
        "auto/manifest/read"@,
        "auto/transport/connect"@,
        "auto/order"@,
        "auto/flash"@,
    ]
}

/// Returns the stable automotive capability strings.
pub fn auto_capability_texts() -> (r: Vec<&'static str>)
    ensures
        r@.len() == 8,
        forall|i: int| 0 <= i < 8 ==> (#[trigger] r@[i])@ == spec_capability_texts()[i],
{
    vec![
        AUTO_DIAGNOSTICS_READ,
        AUTO_TELEMETRY_READ,
        AUTO_CONTROL_EXEC,
        AUTO_SERVICE_WRITE,
        AUTO_MANIFEST_READ,
        AUTO_TRANSPORT_CONNECT,
        AUTO_ORDER,
        AUTO_FLASH,
    ]
}

/// Returns the stable automotive capability names.
pub fn auto_capability_names() -> (r: Vec<CapabilityName>)
    ensures
        cap_views(r@) == spec_capability_texts(),
{
    let texts = auto_capability_texts();
    let mut r: Vec<CapabilityName> = Vec::new();
    let mut i: usize = 0;
    while i < texts.len()
        invariant
            texts@.len() == 8,
            forall|k: int| 0 <= k < 8 ==> (#[trigger] texts@[k])@ == spec_capability_texts()[k],
            i <= 8,
            r@.len() == i,
            forall|k: int| 0 <= k < i ==> (#[trigger] r@[k])@ == spec_capability_texts()[k],
        decreases 8 - i,
    {
        r.push(CapabilityName::new(texts[i]));
        i = i + 1;
    }
    assert(cap_views(r@) =~= spec_capability_texts());
    r
}

/// The views of a sequence of strings.
pub open spec fn strs(v: Seq<String>) -> Seq<Seq<char>> {
    v.map_values(|s: String| s@)
}

/// Copies a list of strings.
pub fn clone_strings(v: &[String]) -> (r: Vec<String>)
    ensures
        strs(r@) == strs(v@),
{
    let mut r: Vec<String> = Vec::new();
    let mut i: usize = 0;
    while i < v.len()
        invariant
            i <= v@.len(),
            r@.len() == i,
            forall|k: int| 0 <= k < i ==> (#[trigger] r@[k])@ == v@[k]@,
        decreases v@.len() - i,
    {
        r.push(v[i].clone());
        i = i + 1;
    }
    assert(strs(r@) =~= strs(v@));
    r
}

/// Owned copies of string slices.
pub fn owned_strings(v: &[&str]) -> (r: Vec<String>)
    ensures
        r@.len() == v@.len(),
        forall|k: int| 0 <= k < v@.len() ==> (#[trigger] r@[k])@ == v@[k]@,
{
    let mut r: Vec<String> = Vec::new();
    let mut i: usize = 0;
    while i < v.len()
        invariant
            i <= v@.len(),
            r@.len() == i,
            forall|k: int| 0 <= k < i ==> (#[trigger] r@[k])@ == v@[k]@,
        decreases v@.len() - i,
    {
        r.push(v[i].to_owned());
        i = i + 1;
    }
    r
}

/// A modeled vehicle identity safe for committed fixtures and manifests.
#[derive(Clone, Debug, PartialEq, Eq)]
pub struct VehicleId {
    /// Namespace that owns the modeled key, such as a shop or fixture set.
    pub namespace: String,
    /// Synthetic key for the vehicle inside the namespace.
    pub key: String,
}

impl VehicleId {
    /// Builds a modeled vehicle identity.
    pub fn new(namespace: &str, key: &str) -> (r: Self)
        ensures
            r.namespace@ == namespace@,
            r.key@ == key@,
    {
        VehicleId { namespace: namespace.to_owned(), key: key.to_owned() }
    }

    /// A copy of this identity.
    pub fn duplicate(&self) -> (r: Self)
        ensures
            r.namespace@ == self.namespace@,
            r.key@ == self.key@,
    {
        VehicleId { namespace: self.namespace.clone(), key: self.key.clone() }
    }

    /// Whether two identities name the same vehicle.
    pub fn same(&self, other: &VehicleId) -> (r: bool)
        ensures
            r == (self.namespace@ == other.namespace@ && self.key@ == other.key@),
    {
        self.namespace == other.namespace && self.key == other.key
    }
}

impl Default for VehicleId {
    fn default() -> (r: Self)
        ensures
            r.namespace@ == "fixture"@,
            r.key@ == "vehicle-alpha"@,
    {
        VehicleId::new("fixture", "vehicle-alpha")
    }
}

/// A decoded diagnostic trouble code with a modeled description.
#[derive(Clone, Debug, PartialEq, Eq)]
pub struct Dtc {
    /// Diagnostic family or subsystem.
    pub system: String,
    /// Diagnostic code text.
    pub code: String,
    /// Human-facing description for the modeled code.
    pub description: String,
    /// Standardized diagnostic status bits supplied by the transport.
    pub status: DtcStatus,
}

/// What a trouble code says: system, code, description and status.
pub type DtcView = (Seq<char>, Seq<char>, Seq<char>, DtcStatus);

impl View for Dtc {
    type V = DtcView;

    open spec fn view(&self) -> DtcView {
        (self.system@, self.code@, self.description@, self.status)
    }
}

/// The views of a list of trouble codes.
pub open spec fn dtc_views(v: Seq<Dtc>) -> Seq<DtcView> {
    v.map_values(|d: Dtc| d@)
}

/// Copies a list of trouble codes.
pub fn duplicate_dtcs(v: &[Dtc]) -> (r: Vec<Dtc>)
    ensures
        dtc_views(r@) == dtc_views(v@),
{
    let mut r: Vec<Dtc> = Vec::new();
    let mut i: usize = 0;
    while i < v.len()
        invariant
            i <= v@.len(),
            r@.len() == i,
            forall|k: int| 0 <= k < i ==> (#[trigger] r@[k])@ == v@[k]@,
        decreases v@.len() - i,
    {
        r.push(v[i].duplicate());
        i = i + 1;
    }
    assert(dtc_views(r@) =~= dtc_views(v@));
    r
}

impl Dtc {
    /// Builds a diagnostic trouble code descriptor with no status bits set.
    pub fn new(system: &str, code: &str, description: &str) -> (r: Self)
        ensures
            r.system@ == system@,
            r.code@ == code@,
            r.description@ == description@,
            r.status == spec_status_from_byte(0),
    {
        assert(spec_status_from_byte(0) == DtcStatus {
            test_failed: false,
            test_failed_this_operation_cycle: false,
            pending: false,
            confirmed: false,
            test_not_completed_since_clear: false,
            test_failed_since_clear: false,
            test_not_completed_this_operation_cycle: false,
            warning_indicator: false,
        }) by (bit_vector);
        Self::with_status(
            system,
            code,
            description,
            DtcStatus {
                test_failed: false,
                test_failed_this_operation_cycle: false,
                pending: false,
                confirmed: false,
                test_not_completed_since_clear: false,
                test_failed_since_clear: false,
                test_not_completed_this_operation_cycle: false,
                warning_indicator: false,
            },
        )
    }

    /// Builds a diagnostic trouble code descriptor with explicit status bits.
    pub fn with_status(system: &str, code: &str, description: &str, status: DtcStatus) -> (r: Self)
        ensures
            r.system@ == system@,
            r.code@ == code@,
            r.description@ == description@,
            r.status == status,
    {
        Dtc {
            system: system.to_owned(),
            code: code.to_owned(),
            description: description.to_owned(),
            status,
        }
    }

    /// A copy of this trouble code.
    pub fn duplicate(&self) -> (r: Self)
        ensures
            r.system@ == self.system@,
            r.code@ == self.code@,
            r.description@ == self.description@,
            r.status == self.status,
    {
        Dtc {
            system: self.system.clone(),
            code: self.code.clone(),
            description: self.description.clone(),
            status: self.status,
        }
    }
}

impl Default for Dtc {
    fn default() -> (r: Self)
        ensures
            r.system@ == "body"@,
            r.code@ == "B0000"@,
            r.description@ == "modeled diagnostic"@,
            r.status == spec_status_from_byte(0x08),
    {
        Dtc::with_status("body", "B0000", "modeled diagnostic", DtcStatus::from_byte(0x08))
    }
}

/// Brand or workshop capability set.
#[derive(Clone, Debug, PartialEq, Eq)]
pub struct BrandCaps {
    /// Brand, workshop, or fleet label.
    pub brand: String,
    /// Capabilities granted by this brand profile.
    pub capabilities: Vec<CapabilityName>,
}

impl BrandCaps {
    /// Builds a brand capability set.
    pub fn new(brand: &str, capabilities: Vec<CapabilityName>) -> (r: Self)
        ensures
            r.brand@ == brand@,
            cap_views(r.capabilities@) == cap_views(capabilities@),
    {
        BrandCaps { brand: brand.to_owned(), capabilities }
    }

    /// A copy of this profile.
    pub fn duplicate(&self) -> (r: Self)
        ensures
            r.brand@ == self.brand@,
            cap_views(r.capabilities@) == cap_views(self.capabilities@),
    {
        BrandCaps { brand: self.brand.clone(), capabilities: duplicate_caps(self.capabilities.as_slice()) }
    }
}

impl Default for BrandCaps {
    fn default() -> (r: Self)
        ensures
            r.brand@ == "fixture-brand"@,
            cap_views(r.capabilities@) == seq!["auto/diagnostics/read"@, "auto/telemetry/read"@],
    {
        let caps = vec![CapabilityName::new(AUTO_DIAGNOSTICS_READ), CapabilityName::new(AUTO_TELEMETRY_READ)];
        assert(cap_views(caps@) =~= seq!["auto/diagnostics/read"@, "auto/telemetry/read"@]);
        BrandCaps::new("fixture-brand", caps)
    }
}

/// An open automotive lane name, such as diagnostics or telemetry.
#[derive(Clone, Debug, PartialEq, Eq)]
pub struct AutoLane {
    /// Lane name.
    pub name: String,
}

impl AutoLane {
    /// Builds an automotive lane descriptor.
    pub fn new(name: &str) -> (r: Self)
        ensures
            r.name@ == name@,
    {
        AutoLane { name: name.to_owned() }
    }
}

impl Default for AutoLane {
    fn default() -> (r: Self)
        ensures
            r.name@ == "diagnostics"@,
    {
        diagnostic_lane()
    }
}

/// An open effect classification used by operation capabilities.
#[derive(Clone, Debug, PartialEq, Eq)]
pub struct EffectClass {
    /// Effect class name.
    pub name: String,
}

impl EffectClass {
    /// Builds an automotive effect class.
    pub fn new(name: &str) -> (r: Self)
        ensures
            r.name@ == name@,
    {
        EffectClass { name: name.to_owned() }
    }
}

impl Default for EffectClass {
    fn default() -> (r: Self)
        ensures
            r.name@ == "diagnostic-read"@,
    {
        diagnostic_effect()
    }
}

/// Capability required to run one automotive operation.
#[derive(Clone, Debug, PartialEq, Eq)]
pub struct OpCap {
    /// Operation symbol text.
    pub operation: String,
    /// Capability required by the operation.
    pub capability: CapabilityName,
    /// Effect class applied by the operation.
    pub effect_class: String,
}

impl OpCap {
    /// Builds an operation capability descriptor.
    pub fn new(operation: &str, capability: CapabilityName, effect_class: &str) -> (r: Self)
        ensures
            r.operation@ == operation@,
            r.capability@ == capability@,
            r.effect_class@ == effect_class@,
    {
        OpCap { operation: operation.to_owned(), capability, effect_class: effect_class.to_owned() }
    }
}

impl Default for OpCap {
    fn default() -> (r: Self)
        ensures
            r.operation@ == "diagnostics/read-dtc"@,
            r.capability@ == "auto/diagnostics/read"@,
            r.effect_class@ == "diagnostic-read"@,
    {
        OpCap::new("diagnostics/read-dtc", CapabilityName::new(AUTO_DIAGNOSTICS_READ), "diagnostic-read")
    }
}

/// Transport endpoint descriptor for an automotive site.
#[derive(Clone, Debug, PartialEq, Eq)]
pub struct TransportSpec {
    /// Transport name.
    pub name: String,
    /// Protocol or codec family.
    pub protocol: String,
    /// Lane this transport serves.
    pub lane: String,
    /// Capability required to read through the transport.
    pub read_capability: CapabilityName,
    /// Capability required to write through the transport.
    pub write_capability: CapabilityName,
}

impl TransportSpec {
    /// Builds an automotive transport descriptor.
    pub fn new(
        name: &str,
        protocol: &str,
        lane: &str,
        read_capability: CapabilityName,
        write_capability: CapabilityName,
    ) -> (r: Self)
        ensures
            r.name@ == name@,
            r.protocol@ == protocol@,
            r.lane@ == lane@,
            r.read_capability@ == read_capability@,
            r.write_capability@ == write_capability@,
    {
        TransportSpec {
            name: name.to_owned(),
            protocol: protocol.to_owned(),
            lane: lane.to_owned(),
            read_capability,
            write_capability,
        }
    }
}

impl Default for TransportSpec {
    fn default() -> (r: Self)
        ensures
            r.name@ == "fixture-transport"@,
            r.protocol@ == "modeled-bus"@,
            r.lane@ == "diagnostics"@,
            r.read_capability@ == "auto/transport/connect"@,
            r.write_capability@ == "auto/service/write"@,
    {
        TransportSpec::new(
            "fixture-transport",
            "modeled-bus",
            "diagnostics",
            CapabilityName::new(AUTO_TRANSPORT_CONNECT),
            CapabilityName::new(AUTO_SERVICE_WRITE),
        )
    }
}

/// Site-level automotive manifest.
#[derive(Clone, Debug, PartialEq, Eq)]
pub struct SiteManifest {
    /// Site label.
    pub site: String,
    /// Modeled vehicle key the site describes.
    pub vehicle: String,
    /// Brand or workshop label.
    pub brand: String,
    /// Lane names exposed by the site.
    pub lanes: Vec<String>,
    /// Transport names exposed by the site.
    pub transports: Vec<String>,
    /// Operation names exposed by the site.
    pub operations: Vec<String>,
    /// Vehicle makes the site serves; `*` or `multi-brand` serve any make.
    pub makes: Vec<String>,
    /// Capabilities the site may be granted.
    pub ceiling: Vec<CapabilityName>,
}

impl SiteManifest {
    /// Builds an automotive site manifest that names no makes and holds no
    /// capability ceiling.
    pub fn new(
        site: &str,
        vehicle: &str,
        brand: &str,
        lanes: Vec<String>,
        transports: Vec<String>,
        operations: Vec<String>,
    ) -> (r: Self)
        ensures
            r.site@ == site@,
            r.vehicle@ == vehicle@,
            r.brand@ == brand@,
            strs(r.lanes@) == strs(lanes@),
            strs(r.transports@) == strs(transports@),
            strs(r.operations@) == strs(operations@),
            r.makes@.len() == 0,
            r.ceiling@.len() == 0,
    {
        SiteManifest {
            site: site.to_owned(),
            vehicle: vehicle.to_owned(),
            brand: brand.to_owned(),
            lanes,
            transports,
            operations,
            makes: Vec::new(),
            ceiling: Vec::new(),
        }
    }

    /// Returns the manifest with the given vehicle makes.
    pub fn with_makes(self, makes: Vec<String>) -> (r: Self)
        ensures
            r == (SiteManifest { makes: r.makes, ..self }),
            strs(r.makes@) == strs(makes@),
    {
        SiteManifest { makes, ..self }
    }

    /// Returns the manifest with the given capability ceiling.
    pub fn with_ceiling(self, ceiling: Vec<CapabilityName>) -> (r: Self)
        ensures
            r == (SiteManifest { ceiling: r.ceiling, ..self }),
            cap_views(r.ceiling@) == cap_views(ceiling@),
    {
        SiteManifest { ceiling, ..self }
    }

    /// A copy of this manifest.
    pub fn duplicate(&self) -> (r: Self)
        ensures
            r.site@ == self.site@,
            r.vehicle@ == self.vehicle@,
            r.brand@ == self.brand@,
            strs(r.lanes@) == strs(self.lanes@),
            strs(r.transports@) == strs(self.transports@),
            strs(r.operations@) == strs(self.operations@),
            strs(r.makes@) == strs(self.makes@),
            cap_views(r.ceiling@) == cap_views(self.ceiling@),
    {
        SiteManifest {
            site: self.site.clone(),
            vehicle: self.vehicle.clone(),
            brand: self.brand.clone(),
            lanes: clone_strings(self.lanes.as_slice()),
            transports: clone_strings(self.transports.as_slice()),
            operations: clone_strings(self.operations.as_slice()),
            makes: clone_strings(self.makes.as_slice()),
            ceiling: duplicate_caps(self.ceiling.as_slice()),
        }
    }
}

/// Whether two manifests carry the same text in every field.
pub open spec fn same_manifest(a: SiteManifest, b: SiteManifest) -> bool {
    &&& a.site@ == b.site@
    &&& a.vehicle@ == b.vehicle@
    &&& a.brand@ == b.brand@
    &&& strs(a.lanes@) == strs(b.lanes@)
    &&& strs(a.transports@) == strs(b.transports@)
    &&& strs(a.operations@) == strs(b.operations@)
    &&& strs(a.makes@) == strs(b.makes@)
    &&& cap_views(a.ceiling@) == cap_views(b.ceiling@)
}

impl Default for SiteManifest {
    fn default() -> (r: Self)
        ensures
            r.site@ == "fixture-site"@,
            r.vehicle@ == "vehicle-alpha"@,
            r.brand@ == "fixture-brand"@,
            strs(r.lanes@) == seq!["diagnostics"@, "telemetry"@],
            strs(r.transports@) == seq!["fixture-transport"@],
            strs(r.operations@) == seq!["diagnostics/read-dtc"@],
            r.makes@.len() == 0,
            r.ceiling@.len() == 0,
    {
        let lanes = owned_strings(&["diagnostics", "telemetry"]);
        let transports = owned_strings(&["fixture-transport"]);
        let operations = owned_strings(&["diagnostics/read-dtc"]);
        assert(strs(lanes@) =~= seq!["diagnostics"@, "telemetry"@]);
        assert(strs(transports@) =~= seq!["fixture-transport"@]);
        assert(strs(operations@) =~= seq!["diagnostics/read-dtc"@]);
        SiteManifest::new("fixture-site", "vehicle-alpha", "fixture-brand", lanes, transports, operations)
    }
}

/// Standard diagnostics lane.
pub fn diagnostic_lane() -> (r: AutoLane)
    ensures
        r.name@ == "diagnostics"@,
{
    auto_lane("diagnostics")
}

/// Standard telemetry lane.
pub fn telemetry_lane() -> (r: AutoLane)
    ensures
        r.name@ == "telemetry"@,
{
    auto_lane("telemetry")
}

/// Standard manifest lane.
pub fn manifest_lane() -> (r: AutoLane)
    ensures
        r.name@ == "manifest"@,
{
    auto_lane("manifest")
}

/// Builds an open automotive lane.
pub fn auto_lane(name: &str) -> (r: AutoLane)
    ensures
        r.name@ == name@,
{
    AutoLane::new(name)
}

/// Standard diagnostic effect class.
pub fn diagnostic_effect() -> (r: EffectClass)
    ensures
        r.name@ == "diagnostic-read"@,
{
    EffectClass::new("diagnostic-read")
}

/// Standard control effect class.
pub fn control_effect() -> (r: EffectClass)
    ensures
        r.name@ == "control-write"@,
{
    EffectClass::new("control-write")
}

} // verus!
