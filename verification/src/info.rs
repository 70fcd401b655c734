//! Repair-information model: source labels, queries, procedures, and the
//! synthetic public catalog that the information site serves.

use vstd::prelude::*;

use crate::domain::{AutoLane, Dtc, VehicleId, strs};
use crate::text::{chars_eq, chars_of, lower_seq, string_of, trim, trim_chars, lower_chars};

verus! {

/// Source family for modeled repair information.
#[derive(Clone, Copy, Debug, PartialEq, Eq, Structural)]
pub enum InfoSource {
    /// Mercedes-Benz WIS-shaped modeled procedure.
    WisModeled,
    /// BMW ISTA-shaped modeled procedure.
    IstaModeled,
    /// Volvo VIDA-shaped modeled procedure.
    VidaModeled,
    /// Bosch ESI\[tronic\]-shaped modeled procedure.
    EsiTronicModeled,
    /// HaynesPro-shaped modeled procedure.
    HaynesProModeled,
    /// Shop-authored modeled procedure.
    ShopAuthored,
}

/// Drops `[` and `]` and turns `_` into `-`.
pub open spec fn label_chars(s: Seq<char>) -> Seq<char>
    decreases s.len(),
{
    if s.len() == 0 {
        Seq::empty()
    } else {
        let rest = label_chars(s.drop_last());
        let c = s.last();
        if c == '[' || c == ']' {
            rest
        } else if c == '_' {
            rest.push('-')
        } else {
            rest.push(c)
        }
    }
}

/// Label normalization: trim, ASCII-lowercase, drop brackets, `_` to `-`.
pub open spec fn label_key(s: Seq<char>) -> Seq<char> {
    label_chars(lower_seq(trim(s)))
}

/// Label normalization on characters.
pub fn label_key_chars(s: &str) -> (r: Vec<char>)
    ensures
        r@ == label_key(s@),
{
    let v = chars_of(s);
    let t = trim_chars(v.as_slice());
    let l = lower_chars(t.as_slice());
    let mut r: Vec<char> = Vec::new();
    let mut i: usize = 0;
    while i < l.len()
        invariant
            i <= l@.len(),
            r@ == label_chars(l@.subrange(0, i as int)),
        decreases l@.len() - i,
    {
        let c = l[i];
        proof {
            let sub = l@.subrange(0, i + 1);
            assert(sub.drop_last() =~= l@.subrange(0, i as int));
            assert(sub.last() == c);
        }
        if c == '[' || c == ']' {
        } else if c == '_' {
            r.push('-');
        } else {
            r.push(c);
        }
        i = i + 1;
    }
    assert(l@.subrange(0, l@.len() as int) =~= l@);
    r
}

/// Label normalization as an owned string.
pub fn label_key_string(s: &str) -> (r: String)
    ensures
        r@ == label_key(s@),
{
    let v = label_key_chars(s);
    string_of(v.as_slice())
}

/// The source a request label names, if any.
pub open spec fn parse_source(label: Seq<char>) -> Option<InfoSource> {
    let n = label_key(label);
    if n == "wis"@ || n == "wis-modeled"@ {
        Some(InfoSource::WisModeled)
    } else if n == "ista"@ || n == "ista-modeled"@ {
        Some(InfoSource::IstaModeled)
    } else if n == "vida"@ || n == "vida-modeled"@ {
        Some(InfoSource::VidaModeled)
    } else if n == "esitronic"@ || n == "esi-tronic"@ || n == "esitronic-modeled"@ || n == "esi-tronic-modeled"@ {
        Some(InfoSource::EsiTronicModeled)
    } else if n == "haynespro"@ || n == "haynes-pro"@ || n == "haynespro-modeled"@ || n == "haynes-pro-modeled"@ {
        Some(InfoSource::HaynesProModeled)
    } else if n == "shop"@ || n == "shop-authored"@ || n == "shop-modeled"@ {
        Some(InfoSource::ShopAuthored)
    } else {
        None
    }
}

/// The stable label of a source.
pub open spec fn source_label(s: InfoSource) -> Seq<char> {
    match s {
        InfoSource::WisModeled => "wis-modeled"@,
        InfoSource::IstaModeled => "ista-modeled"@,
        InfoSource::VidaModeled => "vida-modeled"@,
        InfoSource::EsiTronicModeled => "esitronic-modeled"@,
        InfoSource::HaynesProModeled => "haynespro-modeled"@,
        InfoSource::ShopAuthored => "shop-authored"@,
    }
}

/// Whether `n` spells `lit`.
fn is_lit(n: &[char], lit: &str) -> (r: bool)
    ensures
        r == (n@ == lit@),
{
    let l = chars_of(lit);
    chars_eq(n, l.as_slice())
}

impl InfoSource {
    /// Parses a request source label.
    pub fn parse(label: &str) -> (r: Option<Self>)
        ensures
            r == parse_source(label@),
    {
        let k = label_key_chars(label);
        let n = k.as_slice();
        if is_lit(n, "wis") || is_lit(n, "wis-modeled") {
            Some(InfoSource::WisModeled)
        } else if is_lit(n, "ista") || is_lit(n, "ista-modeled") {
            Some(InfoSource::IstaModeled)
        } else if is_lit(n, "vida") || is_lit(n, "vida-modeled") {
            Some(InfoSource::VidaModeled)
        } else if is_lit(n, "esitronic") || is_lit(n, "esi-tronic") || is_lit(n, "esitronic-modeled") || is_lit(
            n,
            "esi-tronic-modeled",
        ) {
            Some(InfoSource::EsiTronicModeled)
        } else if is_lit(n, "haynespro") || is_lit(n, "haynes-pro") || is_lit(n, "haynespro-modeled") || is_lit(
            n,
            "haynes-pro-modeled",
        ) {
            Some(InfoSource::HaynesProModeled)
        } else if is_lit(n, "shop") || is_lit(n, "shop-authored") || is_lit(n, "shop-modeled") {
            Some(InfoSource::ShopAuthored)
        } else {
            None
        }
    }

    /// Stable source label.
    pub fn as_str(self) -> (r: &'static str)
        ensures
            r@ == source_label(self),
    {
        match self {
            InfoSource::WisModeled => "wis-modeled",
            InfoSource::IstaModeled => "ista-modeled",
            InfoSource::VidaModeled => "vida-modeled",
            InfoSource::EsiTronicModeled => "esitronic-modeled",
            InfoSource::HaynesProModeled => "haynespro-modeled",
            InfoSource::ShopAuthored => "shop-authored",
        }
    }

    /// Human-facing source label for modeled documents.
    pub fn display_name(self) -> (r: &'static str)
        ensures
            r@ == (match self {
                InfoSource::WisModeled => "Modeled WIS"@,
                InfoSource::IstaModeled => "Modeled ISTA"@,
                InfoSource::VidaModeled => "Modeled VIDA"@,
                InfoSource::EsiTronicModeled => "Modeled ESI[tronic]"@,
                InfoSource::HaynesProModeled => "Modeled HaynesPro"@,
                InfoSource::ShopAuthored => "Shop-authored fixture"@,
            }),
    {
        match self {
            InfoSource::WisModeled => "Modeled WIS",
            InfoSource::IstaModeled => "Modeled ISTA",
            InfoSource::VidaModeled => "Modeled VIDA",
            InfoSource::EsiTronicModeled => "Modeled ESI[tronic]",
            InfoSource::HaynesProModeled => "Modeled HaynesPro",
            InfoSource::ShopAuthored => "Shop-authored fixture",
        }
    }

    /// Returns all modeled sources, in declaration order.
    pub fn all() -> (r: Vec<InfoSource>)
        ensures
            r@ == seq![
                InfoSource::WisModeled,
                InfoSource::IstaModeled,
                InfoSource::VidaModeled,
                InfoSource::EsiTronicModeled,
                InfoSource::HaynesProModeled,
                InfoSource::ShopAuthored,
            ],
    {
        let r = vec![
            InfoSource::WisModeled,
            InfoSource::IstaModeled,
            InfoSource::VidaModeled,
            InfoSource::EsiTronicModeled,
            InfoSource::HaynesProModeled,
            InfoSource::ShopAuthored,
        ];
        assert(r@ =~= seq![
            InfoSource::WisModeled,
            InfoSource::IstaModeled,
            InfoSource::VidaModeled,
            InfoSource::EsiTronicModeled,
            InfoSource::HaynesProModeled,
            InfoSource::ShopAuthored,
        ]);
        r
    }
}

/// The view of an optional string.
pub open spec fn opt_view(o: Option<String>) -> Option<Seq<char>> {
    match o {
        Some(s) => Some(s@),
        None => None,
    }
}

/// Query used to select one repair-information document.
#[derive(Clone, Debug, PartialEq, Eq)]
pub struct RepairQuery {
    /// Vehicle identity to match.
    pub vehicle: VehicleId,
    /// Preferred information source. `None` ranks all modeled sources.
    pub source: Option<InfoSource>,
    /// Diagnostic trouble code text, when known.
    pub dtc: Option<String>,
    /// ECU label, when known.
    pub ecu: Option<String>,
    /// Symptom text, when known.
    pub symptom: Option<String>,
    /// Automotive lane, usually `info`.
    pub lane: AutoLane,
}

impl RepairQuery {
    /// Builds an information query for a vehicle: every source, no filters,
    /// lane `info`.
    pub fn new(vehicle: VehicleId) -> (r: Self)
        ensures
            r.vehicle == vehicle,
            r.source is None,
            r.dtc is None,
            r.ecu is None,
            r.symptom is None,
            r.lane.name@ == "info"@,
    {
        RepairQuery { vehicle, source: None, dtc: None, ecu: None, symptom: None, lane: AutoLane::new("info") }
    }

    /// Restricts the query to one source.
    pub fn with_source(self, source: InfoSource) -> (r: Self)
        ensures
            r == (RepairQuery { source: Some(source), ..self }),
    {
        RepairQuery { source: Some(source), ..self }
    }

    /// Adds a DTC filter from a decoded diagnostic record.
    pub fn with_dtc(self, dtc: &Dtc) -> (r: Self)
        ensures
            r == (RepairQuery { dtc: r.dtc, ..self }),
            opt_view(r.dtc) == Some(dtc.code@),
    {
        RepairQuery { dtc: Some(dtc.code.clone()), ..self }
    }

    /// Adds a DTC code filter.
    pub fn with_dtc_code(self, code: &str) -> (r: Self)
        ensures
            r == (RepairQuery { dtc: r.dtc, ..self }),
            opt_view(r.dtc) == Some(code@),
    {
        RepairQuery { dtc: Some(code.to_owned()), ..self }
    }

    /// Adds an ECU filter.
    pub fn with_ecu(self, ecu: &str) -> (r: Self)
        ensures
            r == (RepairQuery { ecu: r.ecu, ..self }),
            opt_view(r.ecu) == Some(ecu@),
    {
        RepairQuery { ecu: Some(ecu.to_owned()), ..self }
    }

    /// Adds a symptom filter.
    pub fn with_symptom(self, symptom: &str) -> (r: Self)
        ensures
            r == (RepairQuery { symptom: r.symptom, ..self }),
            opt_view(r.symptom) == Some(symptom@),
    {
        RepairQuery { symptom: Some(symptom.to_owned()), ..self }
    }

    /// Replaces the lane filter.
    pub fn with_lane(self, lane: AutoLane) -> (r: Self)
        ensures
            r == (RepairQuery { lane, ..self }),
    {
        RepairQuery { lane, ..self }
    }
}

/// A synthetic repair procedure.
#[derive(Clone, Debug, PartialEq, Eq)]
pub struct RepairProcedure {
    /// Stable procedure id.
    pub id: String,
    /// Modeled information source.
    pub source: InfoSource,
    /// Vehicle identity this procedure applies to.
    pub vehicle: VehicleId,
    /// Optional DTC code this procedure targets.
    pub dtc: Option<String>,
    /// Optional ECU label this procedure targets.
    pub ecu: Option<String>,
    /// Optional symptom label this procedure targets.
    pub symptom: Option<String>,
    /// Automotive lane.
    pub lane: AutoLane,
    /// Document title.
    pub title: String,
    /// Short synthetic summary.
    pub summary: String,
    /// Ordered synthetic procedure steps.
    pub steps: Vec<String>,
    /// Safety or review notes.
    pub safety_notes: Vec<String>,
    /// Search tags.
    pub tags: Vec<String>,
}

/// What a procedure says, field by field.
pub struct ProcedureView {
    /// Procedure id.
    pub id: Seq<char>,
    /// Source.
    pub source: InfoSource,
    /// Vehicle namespace.
    pub namespace: Seq<char>,
    /// Vehicle key.
    pub vehicle: Seq<char>,
    /// Targeted DTC.
    pub dtc: Option<Seq<char>>,
    /// Targeted ECU.
    pub ecu: Option<Seq<char>>,
    /// Targeted symptom.
    pub symptom: Option<Seq<char>>,
    /// Lane name.
    pub lane: Seq<char>,
    /// Title.
    pub title: Seq<char>,
    /// Summary.
    pub summary: Seq<char>,
    /// Steps.
    pub steps: Seq<Seq<char>>,
    /// Safety notes.
    pub safety_notes: Seq<Seq<char>>,
    /// Tags.
    pub tags: Seq<Seq<char>>,
}

impl View for RepairProcedure {
    type V = ProcedureView;

    open spec fn view(&self) -> ProcedureView {
        ProcedureView {
            id: self.id@,
            source: self.source,
            namespace: self.vehicle.namespace@,
            vehicle: self.vehicle.key@,
            dtc: opt_view(self.dtc),
            ecu: opt_view(self.ecu),
            symptom: opt_view(self.symptom),
            lane: self.lane.name@,
            title: self.title@,
            summary: self.summary@,
            steps: strs(self.steps@),
            safety_notes: strs(self.safety_notes@),
            tags: strs(self.tags@),
        }
    }
}

/// The views of string slices.
pub open spec fn slice_views(v: Seq<&str>) -> Seq<Seq<char>> {
    v.map_values(|s: &str| s@)
}

/// Owned copies of string slices.
fn owned_list(items: &[&str]) -> (r: Vec<String>)
    ensures
        strs(r@) == slice_views(items@),
{
    let mut r: Vec<String> = Vec::new();
    let mut i: usize = 0;
    while i < items.len()
        invariant
            i <= items@.len(),
            r@.len() == i,
            forall|k: int| 0 <= k < i ==> (#[trigger] r@[k])@ == items@[k]@,
        decreases items@.len() - i,
    {
        r.push(items[i].to_owned());
        i = i + 1;
    }
    assert(strs(r@) =~= slice_views(items@));
    r
}

impl RepairProcedure {
    /// Builds a synthetic repair procedure with no applicability, steps,
    /// notes or tags, on lane `info`.
    pub fn new(id: &str, source: InfoSource, vehicle: VehicleId, title: &str, summary: &str) -> (r: Self)
        ensures
            r@ == (ProcedureView {
                id: id@,
                source,
                namespace: vehicle.namespace@,
                vehicle: vehicle.key@,
                dtc: None,
                ecu: None,
                symptom: None,
                lane: "info"@,
                title: title@,
                summary: summary@,
                steps: Seq::empty(),
                safety_notes: Seq::empty(),
                tags: Seq::empty(),
            }),
    {
        let r = RepairProcedure {
            id: id.to_owned(),
            source,
            vehicle,
            dtc: None,
            ecu: None,
            symptom: None,
            lane: AutoLane::new("info"),
            title: title.to_owned(),
            summary: summary.to_owned(),
            steps: Vec::new(),
            safety_notes: Vec::new(),
            tags: Vec::new(),
        };
        assert(strs(r.steps@) =~= Seq::empty());
        assert(strs(r.safety_notes@) =~= Seq::empty());
        assert(strs(r.tags@) =~= Seq::empty());
        r
    }

    /// Adds DTC applicability.
    pub fn with_dtc(self, code: &str) -> (r: Self)
        ensures
            r@ == (ProcedureView { dtc: Some(code@), ..self@ }),
    {
        RepairProcedure { dtc: Some(code.to_owned()), ..self }
    }

    /// Adds ECU applicability.
    pub fn with_ecu(self, ecu: &str) -> (r: Self)
        ensures
            r@ == (ProcedureView { ecu: Some(ecu@), ..self@ }),
    {
        RepairProcedure { ecu: Some(ecu.to_owned()), ..self }
    }

    /// Adds symptom applicability.
    pub fn with_symptom(self, symptom: &str) -> (r: Self)
        ensures
            r@ == (ProcedureView { symptom: Some(symptom@), ..self@ }),
    {
        RepairProcedure { symptom: Some(symptom.to_owned()), ..self }
    }

    /// Replaces the procedure steps.
    pub fn with_steps(self, steps: &[&str]) -> (r: Self)
        ensures
            r@ == (ProcedureView { steps: slice_views(steps@), ..self@ }),
    {
        RepairProcedure { steps: owned_list(steps), ..self }
    }

    /// Replaces the safety notes.
    pub fn with_safety_notes(self, notes: &[&str]) -> (r: Self)
        ensures
            r@ == (ProcedureView { safety_notes: slice_views(notes@), ..self@ }),
    {
        RepairProcedure { safety_notes: owned_list(notes), ..self }
    }

    /// Replaces the search tags, each normalized as a label.
    pub fn with_tags(self, tags: &[&str]) -> (r: Self)
        ensures
            r@ == (ProcedureView { tags: slice_views(tags@).map_values(|t: Seq<char>| label_key(t)), ..self@ }),
    {
        let mut out: Vec<String> = Vec::new();
        let mut i: usize = 0;
        while i < tags.len()
            invariant
                i <= tags@.len(),
                out@.len() == i,
                forall|k: int| 0 <= k < i ==> (#[trigger] out@[k])@ == label_key(tags@[k]@),
            decreases tags@.len() - i,
        {
            out.push(label_key_string(tags[i]));
            i = i + 1;
        }
        assert(strs(out@) =~= slice_views(tags@).map_values(|t: Seq<char>| label_key(t)));
        RepairProcedure { tags: out, ..self }
    }

    /// A copy of this procedure.
    pub fn duplicate(&self) -> (r: Self)
        ensures
            r@ == self@,
    {
        let r = RepairProcedure {
            id: self.id.clone(),
            source: self.source,
            vehicle: self.vehicle.duplicate(),
            dtc: match &self.dtc {
                Some(s) => Some(s.clone()),
                None => None,
            },
            ecu: match &self.ecu {
                Some(s) => Some(s.clone()),
                None => None,
            },
            symptom: match &self.symptom {
                Some(s) => Some(s.clone()),
                None => None,
            },
            lane: AutoLane::new(self.lane.name.as_str()),
            title: self.title.clone(),
            summary: self.summary.clone(),
            steps: crate::domain::clone_strings(self.steps.as_slice()),
            safety_notes: crate::domain::clone_strings(self.safety_notes.as_slice()),
            tags: crate::domain::clone_strings(self.tags.as_slice()),
        };
        r
    }
}

} // verus!
