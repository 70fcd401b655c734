//! The synthetic public repair catalog and the ranking that picks one of
//! its procedures for a query.

use vstd::prelude::*;

use crate::domain::VehicleId;
use crate::info::{InfoSource, ProcedureView, RepairProcedure, RepairQuery, label_key, opt_view, slice_views};
use crate::kernel::{Error, Result};
use crate::numtext::{decimal, decimal_chars};
use crate::text::{push_str, string_of};
use crate::text::{
    chars_of, contains, contains_chars, eq_ignore_ascii_case, lemma_seq_lt_irreflexive, lemma_seq_lt_total,
    lemma_seq_lt_transitive, lower_chars, lower_seq, replace_char, seq_lt, str_lt, trim, trim_chars,
};

verus! {

/// Shared modeled vehicle used by public repair-information fixtures.
pub fn fixture_vehicle() -> (r: VehicleId)
    ensures
        r.namespace@ == "modeled-se"@,
        r.key@ == "vehicle-alpha"@,
{
    VehicleId::new("modeled-se", "vehicle-alpha")
}

/// The catalog entry `wis-misfire-modeled`.
pub open spec fn wis_entry() -> ProcedureView {
    ProcedureView {
        id: "wis-misfire-modeled"@,
        source: InfoSource::WisModeled,
        namespace: "modeled-se"@,
        vehicle: "vehicle-alpha"@,
        dtc: Some("P0301"@),
        ecu: Some("ME97"@),
        symptom: Some("rough idle"@),
        lane: "info"@,
        title: "Modeled misfire diagnosis"@,
        summary: "Synthetic WIS-shaped workflow for isolating a single-cylinder misfire."@,
        steps: seq!["Confirm the modeled DTC and freeze-frame context."@, "Compare synthetic ignition, fuel, and compression observations."@, "Record the selected modeled repair path in the work order."@],
        safety_notes: seq!["Use modeled data only."@, "Require a separate warrant before any service write."@],
        tags: seq!["misfire"@, "engine"@, "diagnosis"@].map_values(|t: Seq<char>| label_key(t)),
    }
}

/// The catalog entry `ista-air-meter-modeled`.
pub open spec fn ista_entry() -> ProcedureView {
    ProcedureView {
        id: "ista-air-meter-modeled"@,
        source: InfoSource::IstaModeled,
        namespace: "modeled-se"@,
        vehicle: "vehicle-alpha"@,
        dtc: Some("P0100"@),
        ecu: Some("DME"@),
        symptom: Some("hesitation"@),
        lane: "info"@,
        title: "Modeled air-meter plausibility path"@,
        summary: "Synthetic ISTA-shaped workflow for an air-meter plausibility complaint."@,
        steps: seq!["Read modeled intake and load observations."@, "Compare the fixture sensor trend against the expected range."@, "Select the modeled connector and smoke-test branch."@],
        safety_notes: seq!["Do not infer live sensor values from this fixture."@],
        tags: seq!["air"@, "meter"@, "plausibility"@].map_values(|t: Seq<char>| label_key(t)),
    }
}

/// The catalog entry `vida-lamp-circuit-modeled`.
pub open spec fn vida_entry() -> ProcedureView {
    ProcedureView {
        id: "vida-lamp-circuit-modeled"@,
        source: InfoSource::VidaModeled,
        namespace: "modeled-se"@,
        vehicle: "vehicle-alpha"@,
        dtc: Some("B1000"@),
        ecu: Some("CEM"@),
        symptom: Some("lamp warning"@),
        lane: "info"@,
        title: "Modeled lamp circuit check"@,
        summary: "Synthetic VIDA-shaped workflow for a body-control lamp circuit status."@,
        steps: seq!["Read the modeled body-control DTC."@, "Inspect the synthetic lamp circuit observation set."@, "Store the modeled service note for later customer review."@],
        safety_notes: seq!["Treat lighting output checks as modeled observations."@],
        tags: seq!["body"@, "lamp"@, "circuit"@].map_values(|t: Seq<char>| label_key(t)),
    }
}

/// The catalog entry `esitronic-misfire-modeled`.
pub open spec fn esitronic_entry() -> ProcedureView {
    ProcedureView {
        id: "esitronic-misfire-modeled"@,
        source: InfoSource::EsiTronicModeled,
        namespace: "modeled-se"@,
        vehicle: "vehicle-alpha"@,
        dtc: Some("P0301"@),
        ecu: Some("ME97"@),
        symptom: Some("uneven compression"@),
        lane: "info"@,
        title: "Modeled compression comparison"@,
        summary: "Synthetic ESI[tronic]-shaped workflow for a misfire that survives ignition checks."@,
        steps: seq!["Group the modeled DTC with the fixture compression note."@, "Compare synthetic cylinder balance observations."@, "Escalate to a shop-authored confirmation procedure when needed."@],
        safety_notes: seq!["This procedure contains no captured workshop trace."@],
        tags: seq!["compression"@, "engine"@, "misfire"@].map_values(|t: Seq<char>| label_key(t)),
    }
}

/// The catalog entry `haynespro-no-start-modeled`.
pub open spec fn haynespro_entry() -> ProcedureView {
    ProcedureView {
        id: "haynespro-no-start-modeled"@,
        source: InfoSource::HaynesProModeled,
        namespace: "modeled-se"@,
        vehicle: "vehicle-alpha"@,
        dtc: None,
        ecu: Some("starter"@),
        symptom: Some("no start"@),
        lane: "info"@,
        title: "Modeled no-start triage"@,
        summary: "Synthetic HaynesPro-shaped workflow for a no-start symptom without a confirmed DTC."@,
        steps: seq!["Separate modeled power, fuel, and immobilizer branches."@, "Record which branch explains the synthetic observation."@, "Leave live measurements to the host-owned bridge."@],
        safety_notes: seq!["No live wiring image or procedure excerpt is bundled."@],
        tags: seq!["no-start"@, "triage"@, "symptom"@].map_values(|t: Seq<char>| label_key(t)),
    }
}

/// The catalog entry `shop-road-test-modeled`.
pub open spec fn shop_entry() -> ProcedureView {
    ProcedureView {
        id: "shop-road-test-modeled"@,
        source: InfoSource::ShopAuthored,
        namespace: "modeled-se"@,
        vehicle: "vehicle-alpha"@,
        dtc: Some("P0301"@),
        ecu: Some("ME97"@),
        symptom: Some("post repair confirmation"@),
        lane: "info"@,
        title: "Modeled shop road-test checklist"@,
        summary: "Shop-authored synthetic workflow for confirming a repair path after modeled diagnosis."@,
        steps: seq!["Review the modeled work order and selected repair document."@, "Run the synthetic idle, load, and restart observations."@, "Attach the modeled confirmation note to the ledgered job."@],
        safety_notes: seq!["This is a public fixture, not a live road-test instruction."@],
        tags: seq!["confirmation"@, "shop"@, "work-order"@].map_values(|t: Seq<char>| label_key(t)),
    }
}

/// The synthetic public repair catalog, in order.
pub open spec fn catalog_view() -> Seq<ProcedureView> {
    seq![wis_entry(), ista_entry(), vida_entry(), esitronic_entry(), haynespro_entry(), shop_entry()]
}

fn wis_procedure() -> (r: RepairProcedure)
    ensures
        r@ == wis_entry(),
{
    let p = RepairProcedure::new(
        "wis-misfire-modeled",
        InfoSource::WisModeled,
        fixture_vehicle(),
        "Modeled misfire diagnosis",
        "Synthetic WIS-shaped workflow for isolating a single-cylinder misfire.",
    );
    let p = p.with_dtc("P0301");
    let p = p.with_ecu("ME97");
    let p = p.with_symptom("rough idle");
    let steps: &[&str] = &["Confirm the modeled DTC and freeze-frame context.", "Compare synthetic ignition, fuel, and compression observations.", "Record the selected modeled repair path in the work order."];
    assert(slice_views(steps@) =~= seq!["Confirm the modeled DTC and freeze-frame context."@, "Compare synthetic ignition, fuel, and compression observations."@, "Record the selected modeled repair path in the work order."@]);
    let p = p.with_steps(steps);
    let notes: &[&str] = &["Use modeled data only.", "Require a separate warrant before any service write."];
    assert(slice_views(notes@) =~= seq!["Use modeled data only."@, "Require a separate warrant before any service write."@]);
    let p = p.with_safety_notes(notes);
    let tags: &[&str] = &["misfire", "engine", "diagnosis"];
    assert(slice_views(tags@) =~= seq!["misfire"@, "engine"@, "diagnosis"@]);
    p.with_tags(tags)
}

fn ista_procedure() -> (r: RepairProcedure)
    ensures
        r@ == ista_entry(),
{
    let p = RepairProcedure::new(
        "ista-air-meter-modeled",
        InfoSource::IstaModeled,
        fixture_vehicle(),
        "Modeled air-meter plausibility path",
        "Synthetic ISTA-shaped workflow for an air-meter plausibility complaint.",
    );
    let p = p.with_dtc("P0100");
    let p = p.with_ecu("DME");
    let p = p.with_symptom("hesitation");
    let steps: &[&str] = &["Read modeled intake and load observations.", "Compare the fixture sensor trend against the expected range.", "Select the modeled connector and smoke-test branch."];
    assert(slice_views(steps@) =~= seq!["Read modeled intake and load observations."@, "Compare the fixture sensor trend against the expected range."@, "Select the modeled connector and smoke-test branch."@]);
    let p = p.with_steps(steps);
    let notes: &[&str] = &["Do not infer live sensor values from this fixture."];
    assert(slice_views(notes@) =~= seq!["Do not infer live sensor values from this fixture."@]);
    let p = p.with_safety_notes(notes);
    let tags: &[&str] = &["air", "meter", "plausibility"];
    assert(slice_views(tags@) =~= seq!["air"@, "meter"@, "plausibility"@]);
    p.with_tags(tags)
}

fn vida_procedure() -> (r: RepairProcedure)
    ensures
        r@ == vida_entry(),
{
    let p = RepairProcedure::new(
        "vida-lamp-circuit-modeled",
        InfoSource::VidaModeled,
        fixture_vehicle(),
        "Modeled lamp circuit check",
        "Synthetic VIDA-shaped workflow for a body-control lamp circuit status.",
    );
    let p = p.with_dtc("B1000");
    let p = p.with_ecu("CEM");
    let p = p.with_symptom("lamp warning");
    let steps: &[&str] = &["Read the modeled body-control DTC.", "Inspect the synthetic lamp circuit observation set.", "Store the modeled service note for later customer review."];
    assert(slice_views(steps@) =~= seq!["Read the modeled body-control DTC."@, "Inspect the synthetic lamp circuit observation set."@, "Store the modeled service note for later customer review."@]);
    let p = p.with_steps(steps);
    let notes: &[&str] = &["Treat lighting output checks as modeled observations."];
    assert(slice_views(notes@) =~= seq!["Treat lighting output checks as modeled observations."@]);
    let p = p.with_safety_notes(notes);
    let tags: &[&str] = &["body", "lamp", "circuit"];
    assert(slice_views(tags@) =~= seq!["body"@, "lamp"@, "circuit"@]);
    p.with_tags(tags)
}

fn esitronic_procedure() -> (r: RepairProcedure)
    ensures
        r@ == esitronic_entry(),
{
    let p = RepairProcedure::new(
        "esitronic-misfire-modeled",
        InfoSource::EsiTronicModeled,
        fixture_vehicle(),
        "Modeled compression comparison",
        "Synthetic ESI[tronic]-shaped workflow for a misfire that survives ignition checks.",
    );
    let p = p.with_dtc("P0301");
    let p = p.with_ecu("ME97");
    let p = p.with_symptom("uneven compression");
    let steps: &[&str] = &["Group the modeled DTC with the fixture compression note.", "Compare synthetic cylinder balance observations.", "Escalate to a shop-authored confirmation procedure when needed."];
    assert(slice_views(steps@) =~= seq!["Group the modeled DTC with the fixture compression note."@, "Compare synthetic cylinder balance observations."@, "Escalate to a shop-authored confirmation procedure when needed."@]);
    let p = p.with_steps(steps);
    let notes: &[&str] = &["This procedure contains no captured workshop trace."];
    assert(slice_views(notes@) =~= seq!["This procedure contains no captured workshop trace."@]);
    let p = p.with_safety_notes(notes);
    let tags: &[&str] = &["compression", "engine", "misfire"];
    assert(slice_views(tags@) =~= seq!["compression"@, "engine"@, "misfire"@]);
    p.with_tags(tags)
}

fn haynespro_procedure() -> (r: RepairProcedure)
    ensures
        r@ == haynespro_entry(),
{
    let p = RepairProcedure::new(
        "haynespro-no-start-modeled",
        InfoSource::HaynesProModeled,
        fixture_vehicle(),
        "Modeled no-start triage",
        "Synthetic HaynesPro-shaped workflow for a no-start symptom without a confirmed DTC.",
    );
    let p = p.with_ecu("starter");
    let p = p.with_symptom("no start");
    let steps: &[&str] = &["Separate modeled power, fuel, and immobilizer branches.", "Record which branch explains the synthetic observation.", "Leave live measurements to the host-owned bridge."];
    assert(slice_views(steps@) =~= seq!["Separate modeled power, fuel, and immobilizer branches."@, "Record which branch explains the synthetic observation."@, "Leave live measurements to the host-owned bridge."@]);
    let p = p.with_steps(steps);
    let notes: &[&str] = &["No live wiring image or procedure excerpt is bundled."];
    assert(slice_views(notes@) =~= seq!["No live wiring image or procedure excerpt is bundled."@]);
    let p = p.with_safety_notes(notes);
    let tags: &[&str] = &["no-start", "triage", "symptom"];
    assert(slice_views(tags@) =~= seq!["no-start"@, "triage"@, "symptom"@]);
    p.with_tags(tags)
}

fn shop_procedure() -> (r: RepairProcedure)
    ensures
        r@ == shop_entry(),
{
    let p = RepairProcedure::new(
        "shop-road-test-modeled",
        InfoSource::ShopAuthored,
        fixture_vehicle(),
        "Modeled shop road-test checklist",
        "Shop-authored synthetic workflow for confirming a repair path after modeled diagnosis.",
    );
    let p = p.with_dtc("P0301");
    let p = p.with_ecu("ME97");
    let p = p.with_symptom("post repair confirmation");
    let steps: &[&str] = &["Review the modeled work order and selected repair document.", "Run the synthetic idle, load, and restart observations.", "Attach the modeled confirmation note to the ledgered job."];
    assert(slice_views(steps@) =~= seq!["Review the modeled work order and selected repair document."@, "Run the synthetic idle, load, and restart observations."@, "Attach the modeled confirmation note to the ledgered job."@]);
    let p = p.with_steps(steps);
    let notes: &[&str] = &["This is a public fixture, not a live road-test instruction."];
    assert(slice_views(notes@) =~= seq!["This is a public fixture, not a live road-test instruction."@]);
    let p = p.with_safety_notes(notes);
    let tags: &[&str] = &["confirmation", "shop", "work-order"];
    assert(slice_views(tags@) =~= seq!["confirmation"@, "shop"@, "work-order"@]);
    p.with_tags(tags)
}

/// Returns the synthetic public repair-information catalog.
pub fn repair_catalog() -> (r: Vec<RepairProcedure>)
    ensures
        r@.map_values(|p: RepairProcedure| p@) == catalog_view(),
{
    let r = vec![wis_procedure(), ista_procedure(), vida_procedure(), esitronic_procedure(), haynespro_procedure(), shop_procedure()];
    assert(r@.map_values(|p: RepairProcedure| p@) =~= catalog_view());
    r
}

/// Ranking normalization: trim, ASCII-lowercase, `-` to a space.
pub open spec fn rank_key(s: Seq<char>) -> Seq<char> {
    replace_char(lower_seq(trim(s)), '-', ' ')
}

/// Ranking normalization on characters.
fn rank_key_chars(s: &str) -> (r: Vec<char>)
    ensures
        r@ == rank_key(s@),
{
    let v = chars_of(s);
    let t = trim_chars(v.as_slice());
    let l = lower_chars(t.as_slice());
    let mut r: Vec<char> = Vec::new();
    let mut i: usize = 0;
    while i < l.len()
        invariant
            i <= l@.len(),
            r@.len() == i,
            forall|k: int| 0 <= k < i ==> r@[k] == (if l@[k] == '-' { ' ' } else { l@[k] }),
        decreases l@.len() - i,
    {
        if l[i] == '-' {
            r.push(' ');
        } else {
            r.push(l[i]);
        }
        i = i + 1;
    }
    assert(r@ =~= rank_key(s@));
    r
}

/// Whether the query's source filter admits the procedure.
pub open spec fn source_admits(q: RepairQuery, p: ProcedureView) -> bool {
    match q.source {
        Some(s) => s == p.source,
        None => true,
    }
}

/// Points for one optional field: `points` on a case-insensitive match,
/// `-points` on a mismatch, `-points / 2` when the procedure leaves the
/// field open, nothing when the query does.
pub open spec fn field_points(q: Option<Seq<char>>, c: Option<Seq<char>>, points: int) -> int {
    match q {
        Some(a) => match c {
            Some(b) => if lower_seq(a) == lower_seq(b) { points } else { -points },
            None => -(points / 2),
        },
        None => 0,
    }
}

/// The normalized tags, each after a space.
pub open spec fn tag_text(tags: Seq<Seq<char>>) -> Seq<char>
    decreases tags.len(),
{
    if tags.len() == 0 {
        Seq::empty()
    } else {
        tag_text(tags.drop_last()) + seq![' '] + rank_key(tags.last())
    }
}

/// The text a symptom is searched in: the normalized symptom, then the tags.
pub open spec fn symptom_text(p: ProcedureView) -> Seq<char> {
    (match p.symptom {
        Some(s) => rank_key(s),
        None => Seq::empty(),
    }) + tag_text(p.tags)
}

/// 15 when the symptom and the procedure text contain one another, else
/// -5; nothing without a symptom.
pub open spec fn symptom_points(q: Option<Seq<char>>, p: ProcedureView) -> int {
    match q {
        Some(s) => {
            let k = rank_key(s);
            let t = symptom_text(p);
            if contains(t, k) || contains(k, t) {
                15
            } else {
                -5
            }
        },
        None => 0,
    }
}

/// The score of a procedure for a query.
pub open spec fn repair_score(q: RepairQuery, p: ProcedureView) -> int {
    20 + field_points(opt_view(q.dtc), p.dtc, 40) + field_points(opt_view(q.ecu), p.ecu, 20) + symptom_points(
        opt_view(q.symptom),
        p,
    ) + (if lower_seq(q.lane.name@) == lower_seq(p.lane) { 10int } else { 0int }) + (if q.source == Some(p.source) {
        5int
    } else {
        0int
    })
}

/// Whether a procedure is a candidate: admitted source, same vehicle, and
/// a positive score.
pub open spec fn qualifies(q: RepairQuery, p: ProcedureView) -> bool {
    &&& source_admits(q, p)
    &&& p.namespace == q.vehicle.namespace@
    &&& p.vehicle == q.vehicle.key@
    &&& repair_score(q, p) > 0
}

/// A higher score wins; on equal scores the smaller id wins.
pub open spec fn ranks_above(q: RepairQuery, a: ProcedureView, b: ProcedureView) -> bool {
    let sa = repair_score(q, a);
    let sb = repair_score(q, b);
    sa > sb || (sa == sb && seq_lt(a.id, b.id))
}

/// Whether index `k` is the pick: a candidate outranked by no candidate,
/// and outranking every candidate after it.
pub open spec fn is_best_repair(q: RepairQuery, ps: Seq<ProcedureView>, k: int) -> bool {
    &&& 0 <= k < ps.len()
    &&& qualifies(q, ps[k])
    &&& forall|j: int| 0 <= j < ps.len() && qualifies(q, #[trigger] ps[j]) ==> !ranks_above(q, ps[j], ps[k])
    &&& forall|j: int| k < j < ps.len() && qualifies(q, #[trigger] ps[j]) ==> ranks_above(q, ps[k], ps[j])
}

/// Whether some procedure is a candidate.
pub open spec fn has_candidate(q: RepairQuery, ps: Seq<ProcedureView>) -> bool {
    exists|k: int| 0 <= k < ps.len() && qualifies(q, #[trigger] ps[k])
}

/// `ranks_above` is irreflexive.
pub proof fn lemma_ranks_above_irreflexive(q: RepairQuery, a: ProcedureView)
    ensures
        !ranks_above(q, a, a),
{
    lemma_seq_lt_irreflexive(a.id);
}

/// `ranks_above` is asymmetric.
pub proof fn lemma_ranks_above_asymmetric(q: RepairQuery, a: ProcedureView, b: ProcedureView)
    requires
        ranks_above(q, a, b),
    ensures
        !ranks_above(q, b, a),
{
    if seq_lt(a.id, b.id) && seq_lt(b.id, a.id) {
        lemma_seq_lt_transitive(a.id, b.id, a.id);
        lemma_seq_lt_irreflexive(a.id);
    }
}

/// Whatever outranks `c` outranks anything `c` is not outranked by.
pub proof fn lemma_ranks_above_past(q: RepairQuery, j: ProcedureView, c: ProcedureView, b: ProcedureView)
    requires
        ranks_above(q, j, c),
        !ranks_above(q, b, c),
    ensures
        ranks_above(q, j, b),
{
    if b.id != c.id {
        lemma_seq_lt_total(b.id, c.id);
    }
    if seq_lt(j.id, c.id) && seq_lt(c.id, b.id) {
        lemma_seq_lt_transitive(j.id, c.id, b.id);
    }
}

/// At most one index is the pick.
pub proof fn lemma_best_repair_unique(q: RepairQuery, ps: Seq<ProcedureView>, k1: int, k2: int)
    requires
        is_best_repair(q, ps, k1),
        is_best_repair(q, ps, k2),
    ensures
        k1 == k2,
{
    if k1 < k2 {
        assert(qualifies(q, ps[k2]));
        assert(ranks_above(q, ps[k1], ps[k2]));
    } else if k2 < k1 {
        assert(qualifies(q, ps[k1]));
        assert(ranks_above(q, ps[k2], ps[k1]));
    }
}

/// Whether the procedure carries DTC `d`, ignoring ASCII case.
pub open spec fn carries_dtc(p: ProcedureView, d: Seq<char>) -> bool {
    match p.dtc {
        Some(e) => lower_seq(e) == lower_seq(d),
        None => false,
    }
}

/// A query's DTC is worth 40 points: against the same query without a DTC,
/// a procedure carrying that DTC (in any ASCII case) scores 40 more, one
/// carrying another DTC 40 less, and one carrying none 20 less.
pub proof fn lemma_dtc_points(q: RepairQuery, p: ProcedureView, d: Seq<char>)
    requires
        opt_view(q.dtc) == Some(d),
    ensures
        carries_dtc(p, d) ==> repair_score(q, p) == repair_score(RepairQuery { dtc: None, ..q }, p) + 40,
        p.dtc is Some && !carries_dtc(p, d) ==> repair_score(q, p) == repair_score(RepairQuery { dtc: None, ..q }, p) - 40,
        p.dtc is None ==> repair_score(q, p) == repair_score(RepairQuery { dtc: None, ..q }, p) - 20,
{
}

/// A query naming only a DTC picks the one procedure for its vehicle that
/// carries that DTC (in any ASCII case), whatever else the list holds.
pub proof fn lemma_sole_dtc_match_is_picked(q: RepairQuery, ps: Seq<ProcedureView>, k: int, d: Seq<char>)
    requires
        opt_view(q.dtc) == Some(d),
        q.ecu is None,
        q.symptom is None,
        q.source is None,
        0 <= k < ps.len(),
        ps[k].namespace == q.vehicle.namespace@,
        ps[k].vehicle == q.vehicle.key@,
        carries_dtc(ps[k], d),
        forall|j: int| 0 <= j < ps.len() && j != k ==> !carries_dtc(#[trigger] ps[j], d),
    ensures
        is_best_repair(q, ps, k),
{
    assert(repair_score(q, ps[k]) >= 60);
    assert forall|j: int| 0 <= j < ps.len() && j != k implies #[trigger] repair_score(q, ps[j]) <= 10 by {
        assert(!carries_dtc(ps[j], d));
    }
    assert forall|j: int| 0 <= j < ps.len() && qualifies(q, #[trigger] ps[j]) implies !ranks_above(q, ps[j], ps[k]) by {
        if j != k {
            assert(repair_score(q, ps[j]) <= 10);
        } else {
            lemma_ranks_above_irreflexive(q, ps[k]);
        }
    }
    assert forall|j: int| k < j < ps.len() && qualifies(q, #[trigger] ps[j]) implies ranks_above(q, ps[k], ps[j]) by {
        assert(repair_score(q, ps[j]) <= 10);
    }
}

/// Points for one optional field.
fn field_points_of(q: &Option<String>, c: &Option<String>, points: i32) -> (r: i32)
    requires
        0 <= points <= 100,
    ensures
        r as int == field_points(opt_view(*q), opt_view(*c), points as int),
{
    match q {
        Some(a) => match c {
            Some(b) => if eq_ignore_ascii_case(a.as_str(), b.as_str()) {
                points
            } else {
                -points
            },
            None => -(points / 2),
        },
        None => 0,
    }
}

/// The text a symptom is searched in.
fn symptom_text_of(p: &RepairProcedure) -> (r: Vec<char>)
    ensures
        r@ == symptom_text(p@),
{
    let mut text: Vec<char> = match &p.symptom {
        Some(s) => rank_key_chars(s.as_str()),
        None => Vec::new(),
    };
    let ghost base = text@;
    let mut i: usize = 0;
    while i < p.tags.len()
        invariant
            i <= p.tags@.len(),
            text@ == base + tag_text(p@.tags.subrange(0, i as int)),
        decreases p.tags@.len() - i,
    {
        proof {
            let sub = p@.tags.subrange(0, i + 1);
            assert(sub.drop_last() =~= p@.tags.subrange(0, i as int));
            assert(sub.last() == p.tags@[i as int]@);
        }
        let ghost before = text@;
        text.push(' ');
        let mut key = rank_key_chars(p.tags[i].as_str());
        text.append(&mut key);
        assert(text@ =~= before + seq![' '] + rank_key(p.tags@[i as int]@));
        i = i + 1;
    }
    assert(p@.tags.subrange(0, p@.tags.len() as int) =~= p@.tags);
    text
}

/// Symptom points for a procedure.
fn symptom_points_of(q: &Option<String>, p: &RepairProcedure) -> (r: i32)
    ensures
        r as int == symptom_points(opt_view(*q), p@),
{
    match q {
        Some(s) => {
            let k = rank_key_chars(s.as_str());
            let t = symptom_text_of(p);
            if contains_chars(t.as_slice(), k.as_slice()) || contains_chars(k.as_slice(), t.as_slice()) {
                15
            } else {
                -5
            }
        },
        None => 0,
    }
}

/// The score of a procedure for a query.
fn score_of(q: &RepairQuery, p: &RepairProcedure) -> (r: i32)
    ensures
        r as int == repair_score(*q, p@),
{
    let mut score: i32 = 20;
    score = score + field_points_of(&q.dtc, &p.dtc, 40);
    score = score + field_points_of(&q.ecu, &p.ecu, 20);
    score = score + symptom_points_of(&q.symptom, p);
    if eq_ignore_ascii_case(q.lane.name.as_str(), p.lane.name.as_str()) {
        score = score + 10;
    }
    let same_source = match q.source {
        Some(s) => s == p.source,
        None => false,
    };
    if same_source {
        score = score + 5;
    }
    score
}

/// The views of a list of procedures.
pub open spec fn procedure_views(ps: Seq<RepairProcedure>) -> Seq<ProcedureView> {
    ps.map_values(|p: RepairProcedure| p@)
}

/// A qualifying procedure with its score.
pub struct RepairCandidate {
    /// Candidate score.
    pub score: i32,
    /// Procedure selected for this score.
    pub procedure: RepairProcedure,
}

/// Selects the best repair-information document for `query`: among the
/// candidates, the highest score, then the smallest id, then the last.
pub fn rank_repair_docs(query: &RepairQuery, candidates: &[RepairProcedure]) -> (r: Result<RepairProcedure>)
    ensures
        r is Ok <==> has_candidate(*query, procedure_views(candidates@)),
        r matches Ok(p) ==> exists|k: int| is_best_repair(*query, procedure_views(candidates@), k) && p@ == candidates@[k]@,
        r is Err ==> (r matches Err(Error::Eval(msg)) && msg@ == "no modeled repair information matched query"@),
{
    let ghost ps = procedure_views(candidates@);
    let mut best: Option<RepairCandidate> = None;
    let ghost mut b: int = 0;
    let mut i: usize = 0;
    while i < candidates.len()
        invariant
            ps == procedure_views(candidates@),
            i <= candidates@.len(),
            best is None ==> forall|j: int| 0 <= j < i ==> !qualifies(*query, #[trigger] ps[j]),
            best matches Some(c) ==> {
                &&& 0 <= b < i
                &&& c.procedure@ == ps[b]
                &&& qualifies(*query, ps[b])
                &&& c.score as int == repair_score(*query, ps[b])
                &&& forall|j: int| 0 <= j < i && qualifies(*query, #[trigger] ps[j]) ==> !ranks_above(*query, ps[j], ps[b])
                &&& forall|j: int| b < j < i && qualifies(*query, #[trigger] ps[j]) ==> ranks_above(*query, ps[b], ps[j])
            },
        decreases candidates@.len() - i,
    {
        let c = &candidates[i];
        assert(ps[i as int] == c@);
        let admits = match query.source {
            Some(s) => s == c.source,
            None => true,
        };
        let s = score_of(query, c);
        if admits && c.vehicle.same(&query.vehicle) && s > 0 {
            let take = match &best {
                None => true,
                Some(held) => !(held.score > s || (held.score == s && str_lt(held.procedure.id.as_str(), c.id.as_str()))),
            };
            proof {
                lemma_ranks_above_irreflexive(*query, ps[i as int]);
                if best is Some {
                    assert(take == !ranks_above(*query, ps[b], ps[i as int]));
                    if take {
                        assert forall|j: int| 0 <= j < i + 1 && qualifies(*query, #[trigger] ps[j]) implies !ranks_above(*query, ps[j], ps[i as int]) by {
                            if j < i && ranks_above(*query, ps[j], ps[i as int]) {
                                lemma_ranks_above_past(*query, ps[j], ps[i as int], ps[b]);
                            }
                        }
                    } else {
                        lemma_ranks_above_asymmetric(*query, ps[b], ps[i as int]);
                    }
                }
            }
            if take {
                best = Some(RepairCandidate { score: s, procedure: c.duplicate() });
                proof {
                    b = i as int;
                }
            }
        }
        i = i + 1;
    }
    match best {
        Some(held) => {
            assert(ps[b] == candidates@[b]@);
            assert(is_best_repair(*query, ps, b));
            Ok(held.procedure)
        },
        None => Err(Error::Eval("no modeled repair information matched query".to_owned())),
    }
}

/// Modeled repair-information site serving one catalog.
#[derive(Clone)]
pub struct AutoInfoFabric {
    catalog: Vec<RepairProcedure>,
}

impl View for AutoInfoFabric {
    type V = Seq<RepairProcedure>;

    closed spec fn view(&self) -> Seq<RepairProcedure> {
        self.catalog@
    }
}

impl AutoInfoFabric {
    /// Builds a modeled info fabric from an explicit catalog.
    pub fn new(catalog: Vec<RepairProcedure>) -> (r: Self)
        ensures
            r@ == catalog@,
    {
        AutoInfoFabric { catalog }
    }

    /// Builds the fabric over the synthetic public catalog.
    pub fn fixture() -> (r: Self)
        ensures
            procedure_views(r@) == catalog_view(),
    {
        let catalog = repair_catalog();
        assert(procedure_views(catalog@) == catalog@.map_values(|p: RepairProcedure| p@));
        Self::new(catalog)
    }

    /// Returns the catalog this fabric serves.
    pub fn catalog(&self) -> (r: &[RepairProcedure])
        ensures
            r@ == self@,
    {
        self.catalog.as_slice()
    }
}

/// One block of a rendered repair document.
#[derive(Clone, Debug, PartialEq, Eq)]
pub enum DocBlock {
    /// A section heading.
    Section(String),
    /// A paragraph.
    Prose(String),
    /// A table, row by row.
    Table(Vec<Vec<String>>),
}

/// What a document block says.
pub enum DocBlockView {
    /// A section heading.
    Section(Seq<char>),
    /// A paragraph.
    Prose(Seq<char>),
    /// A table.
    Table(Seq<Seq<Seq<char>>>),
}

/// The view of a block.
pub open spec fn block_view(b: DocBlock) -> DocBlockView {
    match b {
        DocBlock::Section(t) => DocBlockView::Section(t@),
        DocBlock::Prose(t) => DocBlockView::Prose(t@),
        DocBlock::Table(rows) => DocBlockView::Table(rows@.map_values(|r: Vec<String>| crate::domain::strs(r@))),
    }
}

/// An optional field's text, or `not specified`.
pub open spec fn or_unspecified(o: Option<Seq<char>>) -> Seq<char> {
    match o {
        Some(t) => t,
        None => "not specified"@,
    }
}

/// The applicability rows of a procedure: a header, then source, vehicle,
/// DTC, ECU, symptom and lane.
pub open spec fn applicability_view(p: ProcedureView) -> Seq<Seq<Seq<char>>> {
    seq![
        seq!["field"@, "value"@],
        seq!["source"@, crate::info::source_label(p.source)],
        seq!["vehicle"@, p.namespace + seq!['/'] + p.vehicle],
        seq!["dtc"@, or_unspecified(p.dtc)],
        seq!["ecu"@, or_unspecified(p.ecu)],
        seq!["symptom"@, or_unspecified(p.symptom)],
        seq!["lane"@, p.lane],
    ]
}

fn unspecified(o: &Option<String>) -> (r: String)
    ensures
        r@ == or_unspecified(crate::info::opt_view(*o)),
{
    match o {
        Some(t) => t.clone(),
        None => "not specified".to_owned(),
    }
}

fn row(a: &str, b: String) -> (r: Vec<String>)
    ensures
        crate::domain::strs(r@) == seq![a@, b@],
{
    let r = vec![a.to_owned(), b];
    assert(crate::domain::strs(r@) =~= seq![a@, b@]);
    r
}

/// The applicability table of a procedure.
pub fn applicability_rows(procedure: &RepairProcedure) -> (r: Vec<Vec<String>>)
    ensures
        r@.map_values(|x: Vec<String>| crate::domain::strs(x@)) == applicability_view(procedure@),
{
    let mut vehicle = crate::text::chars_of(procedure.vehicle.namespace.as_str());
    vehicle.push('/');
    push_str(&mut vehicle, procedure.vehicle.key.as_str());
    assert(vehicle@ =~= procedure@.namespace + seq!['/'] + procedure@.vehicle);
    let rows = vec![
        row("field", "value".to_owned()),
        row("source", procedure.source.as_str().to_owned()),
        row("vehicle", string_of(vehicle.as_slice())),
        row("dtc", unspecified(&procedure.dtc)),
        row("ecu", unspecified(&procedure.ecu)),
        row("symptom", unspecified(&procedure.symptom)),
        row("lane", procedure.lane.name.clone()),
    ];
    assert(rows@.map_values(|x: Vec<String>| crate::domain::strs(x@)) =~= applicability_view(procedure@));
    rows
}

/// The display name of a source, as its documents show it.
pub open spec fn display_label(s: InfoSource) -> Seq<char> {
    match s {
        InfoSource::WisModeled => "Modeled WIS"@,
        InfoSource::IstaModeled => "Modeled ISTA"@,
        InfoSource::VidaModeled => "Modeled VIDA"@,
        InfoSource::EsiTronicModeled => "Modeled ESI[tronic]"@,
        InfoSource::HaynesProModeled => "Modeled HaynesPro"@,
        InfoSource::ShopAuthored => "Shop-authored fixture"@,
    }
}

/// The numbered steps of a procedure, `1. ` first.
pub open spec fn step_blocks(steps: Seq<Seq<char>>) -> Seq<DocBlockView>
    decreases steps.len(),
{
    if steps.len() == 0 {
        Seq::empty()
    } else {
        step_blocks(steps.drop_last()).push(
            DocBlockView::Prose(decimal(steps.len()) + ". "@ + steps.last()),
        )
    }
}

/// The blocks of a procedure's document: title, summary line,
/// applicability table, numbered steps, and review notes when there are
/// any.
pub open spec fn document_view(p: ProcedureView) -> Seq<DocBlockView> {
    let head = seq![
        DocBlockView::Section(p.title),
        DocBlockView::Prose(display_label(p.source) + " synthetic procedure. "@ + p.summary),
        DocBlockView::Section("Applicability"@),
        DocBlockView::Table(applicability_view(p)),
        DocBlockView::Section("Modeled procedure"@),
    ];
    let body = head + step_blocks(p.steps);
    if p.safety_notes.len() == 0 {
        body
    } else {
        body + seq![DocBlockView::Section("Review notes"@)] + p.safety_notes.map_values(|n: Seq<char>| DocBlockView::Prose(n))
    }
}

/// The title and blocks of a procedure's document.
pub fn procedure_blocks(procedure: &RepairProcedure) -> (r: Vec<DocBlock>)
    ensures
        r@.map_values(|b: DocBlock| block_view(b)) == document_view(procedure@),
{
    let mut summary = crate::text::chars_of(procedure.source.display_name());
    push_str(&mut summary, " synthetic procedure. ");
    push_str(&mut summary, procedure.summary.as_str());
    let mut blocks = vec![
        DocBlock::Section(procedure.title.clone()),
        DocBlock::Prose(string_of(summary.as_slice())),
        DocBlock::Section("Applicability".to_owned()),
        DocBlock::Table(applicability_rows(procedure)),
        DocBlock::Section("Modeled procedure".to_owned()),
    ];
    let ghost head = seq![
        DocBlockView::Section(procedure@.title),
        DocBlockView::Prose(display_label(procedure@.source) + " synthetic procedure. "@ + procedure@.summary),
        DocBlockView::Section("Applicability"@),
        DocBlockView::Table(applicability_view(procedure@)),
        DocBlockView::Section("Modeled procedure"@),
    ];
    assert(blocks@.map_values(|b: DocBlock| block_view(b)) =~= head);
    let ghost steps = procedure@.steps;
    let mut i: usize = 0;
    assert(steps.take(0) =~= Seq::<Seq<char>>::empty());
    while i < procedure.steps.len()
        invariant
            i <= procedure.steps@.len(),
            steps == procedure@.steps,
            blocks@.map_values(|b: DocBlock| block_view(b)) == head + step_blocks(steps.take(i as int)),
        decreases procedure.steps@.len() - i,
    {
        let mut text = decimal_chars((i + 1) as u64);
        push_str(&mut text, ". ");
        push_str(&mut text, procedure.steps[i].as_str());
        let ghost before = blocks@.map_values(|b: DocBlock| block_view(b));
        blocks.push(DocBlock::Prose(string_of(text.as_slice())));
        proof {
            let t = steps.take(i + 1);
            assert(t.drop_last() =~= steps.take(i as int));
            assert(t.last() == procedure.steps@[i as int]@);
            assert(blocks@.map_values(|b: DocBlock| block_view(b)) =~= before.push(
                DocBlockView::Prose(decimal((i + 1) as nat) + ". "@ + procedure.steps@[i as int]@),
            ));
        }
        i = i + 1;
    }
    assert(steps.take(steps.len() as int) =~= steps);
    if procedure.safety_notes.len() > 0 {
        let ghost body = blocks@.map_values(|b: DocBlock| block_view(b));
        blocks.push(DocBlock::Section("Review notes".to_owned()));
        let mut j: usize = 0;
        while j < procedure.safety_notes.len()
            invariant
                j <= procedure.safety_notes@.len(),
                blocks@.map_values(|b: DocBlock| block_view(b)) == body + seq![DocBlockView::Section("Review notes"@)]
                    + procedure@.safety_notes.take(j as int).map_values(|n: Seq<char>| DocBlockView::Prose(n)),
            decreases procedure.safety_notes@.len() - j,
        {
            let ghost before = blocks@.map_values(|b: DocBlock| block_view(b));
            blocks.push(DocBlock::Prose(procedure.safety_notes[j].clone()));
            proof {
                let notes = procedure@.safety_notes;
                assert(notes[j as int] == procedure.safety_notes@[j as int]@);
                assert(notes.take(j + 1) =~= notes.take(j as int).push(notes[j as int]));
                assert(notes.take(j + 1).map_values(|n: Seq<char>| DocBlockView::Prose(n)) =~= notes.take(j as int).map_values(
                    |n: Seq<char>| DocBlockView::Prose(n),
                ).push(DocBlockView::Prose(notes[j as int])));
                assert(before.push(DocBlockView::Prose(notes[j as int])) =~= body + seq![DocBlockView::Section("Review notes"@)]
                    + notes.take(j + 1).map_values(|n: Seq<char>| DocBlockView::Prose(n)));
                assert(blocks@.map_values(|b: DocBlock| block_view(b)) =~= body + seq![DocBlockView::Section("Review notes"@)]
                    + procedure@.safety_notes.take(j + 1).map_values(|n: Seq<char>| DocBlockView::Prose(n)));
            }
            j = j + 1;
        }
        assert(procedure@.safety_notes.take(procedure@.safety_notes.len() as int) =~= procedure@.safety_notes);
    }
    blocks
}

/// Selects the best procedure for `query` from `catalog` and lays out its
/// document.
pub fn repair_blocks_from_catalog(query: &RepairQuery, catalog: &[RepairProcedure]) -> (r: Result<Vec<DocBlock>>)
    ensures
        r is Ok <==> has_candidate(*query, procedure_views(catalog@)),
        r matches Ok(blocks) ==> exists|k: int| is_best_repair(*query, procedure_views(catalog@), k)
            && blocks@.map_values(|b: DocBlock| block_view(b)) == document_view(catalog@[k]@),
        r is Err ==> (r matches Err(Error::Eval(msg)) && msg@ == "no modeled repair information matched query"@),
{
    match rank_repair_docs(query, catalog) {
        Ok(p) => Ok(procedure_blocks(&p)),
        Err(e) => Err(e),
    }
}

} // verus!
