//! Brand and site selection over automotive site manifests.
//!
//! A site serves a make exactly when it names it (among its makes or as its
//! brand), and as a fallback when it lists `*` or `multi-brand`. Among the
//! sites that serve the make, carry every requested lane and may hold every
//! requested capability, the selection prefers an exact make, then the
//! fewest extra lanes, then the alphabetically first site label.

use vstd::prelude::*;

use crate::domain::{AutoLane, BrandCaps, SiteManifest, same_manifest};
use crate::kernel::{CapabilityName, Error, Result, cap_views, duplicate_caps, has_cap, holds_cap};
use crate::text::{
    char_views, chars_eq, chars_of, join, join_chars, lemma_seq_lt_irreflexive,
    lemma_seq_lt_total, lemma_seq_lt_transitive, lower_seq, normalize, normalize_chars, push_str, seq_lt,
    str_eq, str_lt, string_of, trim,
};

verus! {

/// A requested vehicle make, lanes, and capabilities the chosen site must
/// be allowed to hold.
#[derive(Clone, Debug, PartialEq, Eq)]
pub struct BrandNeed {
    /// Requested vehicle make, such as `volvo` or `mercedes-benz`.
    pub make: String,
    /// Lanes required for the current bay action.
    pub lanes: Vec<AutoLane>,
    /// Capabilities the selected site must be allowed to hold.
    pub capabilities: Vec<CapabilityName>,
}

impl BrandNeed {
    /// Builds a brand-selection request with no capability requirement.
    pub fn new(make: &str, lanes: Vec<AutoLane>) -> (r: Self)
        ensures
            r.make@ == make@,
            r.lanes@ == lanes@,
            r.capabilities@.len() == 0,
    {
        BrandNeed { make: make.to_owned(), lanes, capabilities: Vec::new() }
    }

    /// Adds one required capability to the selection request.
    pub fn requiring(self, capability: CapabilityName) -> (r: Self)
        ensures
            r.make == self.make,
            r.lanes == self.lanes,
            r.capabilities@ == self.capabilities@.push(capability),
    {
        let mut need = self;
        need.capabilities.push(capability);
        need
    }
}

/// The selected manifest and the brand capabilities derived from it.
#[derive(Clone, Debug, PartialEq, Eq)]
pub struct BrandSelection {
    /// Selected site manifest.
    pub manifest: SiteManifest,
    /// Brand capability data derived from the manifest ceiling.
    pub brand_caps: BrandCaps,
    /// True when the manifest directly names the requested make.
    pub exact_make: bool,
    /// Count of extra lanes carried by the selected site beyond the request.
    pub lane_surplus: usize,
}

/// A make label that serves every make.
pub open spec fn is_any_make(label: Seq<char>) -> bool {
    label == "*"@ || normalize(label) == "multi-brand"@
}

/// Whether the manifest names `make` among its makes or as its brand.
pub open spec fn names_make(m: SiteManifest, make: Seq<char>) -> bool {
    ||| exists|j: int| 0 <= j < m.makes@.len() && normalize(#[trigger] m.makes@[j]@) == normalize(make)
    ||| normalize(m.brand@) == normalize(make)
}

/// Whether the manifest serves any make.
pub open spec fn serves_any_make(m: SiteManifest) -> bool {
    exists|j: int| 0 <= j < m.makes@.len() && is_any_make(#[trigger] m.makes@[j]@)
}

/// 2 for an exact make, 1 for a fallback site, 0 when the site does not
/// serve the make.
pub open spec fn make_rank(m: SiteManifest, make: Seq<char>) -> int {
    if names_make(m, make) {
        2
    } else if serves_any_make(m) {
        1
    } else {
        0
    }
}

/// The normalized lane names of a manifest.
pub open spec fn lane_keys(m: SiteManifest) -> Seq<Seq<char>> {
    m.lanes@.map_values(|l: String| normalize(l@))
}

/// The normalized names of the required lanes absent from `have`, in
/// request order.
pub open spec fn missing_lanes(have: Seq<Seq<char>>, required: Seq<AutoLane>) -> Seq<Seq<char>>
    decreases required.len(),
{
    if required.len() == 0 {
        Seq::empty()
    } else {
        let rest = missing_lanes(have, required.drop_last());
        let key = normalize(required.last().name@);
        if have.contains(key) {
            rest
        } else {
            rest.push(key)
        }
    }
}

/// The required capabilities that the ceiling does not hold, in request
/// order.
pub open spec fn missing_caps(ceiling: Seq<CapabilityName>, required: Seq<CapabilityName>) -> Seq<Seq<char>>
    decreases required.len(),
{
    if required.len() == 0 {
        Seq::empty()
    } else {
        let rest = missing_caps(ceiling, required.drop_last());
        if holds_cap(ceiling, required.last()@) {
            rest
        } else {
            rest.push(required.last()@)
        }
    }
}

/// Lanes the manifest lacks for the request.
pub open spec fn lanes_missing_for(m: SiteManifest, need: BrandNeed) -> Seq<Seq<char>> {
    missing_lanes(lane_keys(m), need.lanes@)
}

/// Capabilities the manifest may not hold for the request.
pub open spec fn caps_missing_for(m: SiteManifest, need: BrandNeed) -> Seq<Seq<char>> {
    missing_caps(m.ceiling@, need.capabilities@)
}

/// Extra lanes of the manifest beyond the requested count, never negative.
pub open spec fn lane_surplus(m: SiteManifest, need: BrandNeed) -> int {
    if m.lanes@.len() >= need.lanes@.len() {
        m.lanes@.len() - need.lanes@.len()
    } else {
        0
    }
}

/// Whether the manifest can serve the request.
pub open spec fn eligible(m: SiteManifest, need: BrandNeed) -> bool {
    &&& make_rank(m, need.make@) > 0
    &&& lanes_missing_for(m, need).len() == 0
    &&& caps_missing_for(m, need).len() == 0
}

/// Whether `a` is strictly preferred to `b` for the request.
pub open spec fn outranks(a: SiteManifest, b: SiteManifest, need: BrandNeed) -> bool {
    let ra = make_rank(a, need.make@);
    let rb = make_rank(b, need.make@);
    let sa = lane_surplus(a, need);
    let sb = lane_surplus(b, need);
    ||| ra > rb
    ||| ra == rb && sa < sb
    ||| ra == rb && sa == sb && seq_lt(a.site@, b.site@)
}

/// Whether some manifest can serve the request.
pub open spec fn has_eligible(ms: Seq<SiteManifest>, need: BrandNeed) -> bool {
    exists|k: int| 0 <= k < ms.len() && eligible(#[trigger] ms[k], need)
}

/// Whether index `k` is the selection: eligible, outranked by no eligible
/// manifest, and outranking every eligible manifest before it.
pub open spec fn is_selected(ms: Seq<SiteManifest>, need: BrandNeed, k: int) -> bool {
    &&& 0 <= k < ms.len()
    &&& eligible(ms[k], need)
    &&& forall|j: int| 0 <= j < ms.len() && eligible(#[trigger] ms[j], need) ==> !outranks(ms[j], ms[k], need)
    &&& forall|j: int| 0 <= j < k && eligible(#[trigger] ms[j], need) ==> outranks(ms[k], ms[j], need)
}

/// The diagnostic for a manifest that serves the make but lacks lanes.
pub open spec fn lane_miss_note(m: SiteManifest, need: BrandNeed) -> Seq<char> {
    m.site@ + " missing "@ + join(lanes_missing_for(m, need), ","@)
}

/// The diagnostic for a manifest whose ceiling denies a capability.
pub open spec fn denial_note(m: SiteManifest, need: BrandNeed) -> Seq<char> {
    m.site@ + " lacks "@ + join(caps_missing_for(m, need), ","@)
}

/// Lane diagnostics of every manifest that serves the make but lacks lanes.
pub open spec fn lane_miss_notes(ms: Seq<SiteManifest>, need: BrandNeed) -> Seq<Seq<char>>
    decreases ms.len(),
{
    if ms.len() == 0 {
        Seq::empty()
    } else {
        let rest = lane_miss_notes(ms.drop_last(), need);
        let m = ms.last();
        if make_rank(m, need.make@) > 0 && lanes_missing_for(m, need).len() > 0 {
            rest.push(lane_miss_note(m, need))
        } else {
            rest
        }
    }
}

/// Denials of every manifest that serves the make and its lanes but whose
/// ceiling lacks a requested capability.
pub open spec fn denial_notes(ms: Seq<SiteManifest>, need: BrandNeed) -> Seq<Seq<char>>
    decreases ms.len(),
{
    if ms.len() == 0 {
        Seq::empty()
    } else {
        let rest = denial_notes(ms.drop_last(), need);
        let m = ms.last();
        if make_rank(m, need.make@) > 0 && lanes_missing_for(m, need).len() == 0
            && caps_missing_for(m, need).len() > 0 {
            rest.push(denial_note(m, need))
        } else {
            rest
        }
    }
}

/// The error text when a capability ceiling denied every candidate.
pub open spec fn denied_message(need: BrandNeed, notes: Seq<Seq<char>>) -> Seq<char> {
    "auto brand/select denied by capability ceiling for make "@ + need.make@ + ": "@ + join(notes, "; "@)
}

/// The error text when no manifest serves the make and lanes.
pub open spec fn no_match_message(need: BrandNeed, misses: Seq<Seq<char>>) -> Seq<char> {
    let head = "no installed auto site matches vehicle make "@ + need.make@ + " and lanes "@
        + join(need.lanes@.map_values(|l: AutoLane| l.name@), ","@);
    if misses.len() > 0 {
        head + "; lane diagnostics: "@ + join(misses, "; "@)
    } else {
        head
    }
}

/// Whether `sel` is the selection built from manifest `m`.
pub open spec fn selection_of(sel: BrandSelection, m: SiteManifest, need: BrandNeed) -> bool {
    &&& same_manifest(sel.manifest, m)
    &&& sel.brand_caps.brand@ == m.brand@
    &&& cap_views(sel.brand_caps.capabilities@) == cap_views(m.ceiling@)
    &&& sel.exact_make == (make_rank(m, need.make@) == 2)
    &&& sel.lane_surplus == lane_surplus(m, need)
}

/// `outranks` is irreflexive.
pub proof fn lemma_outranks_irreflexive(a: SiteManifest, need: BrandNeed)
    ensures
        !outranks(a, a, need),
{
    lemma_seq_lt_irreflexive(a.site@);
}

/// `outranks` is transitive.
pub proof fn lemma_outranks_transitive(a: SiteManifest, b: SiteManifest, c: SiteManifest, need: BrandNeed)
    requires
        outranks(a, b, need),
        outranks(b, c, need),
    ensures
        outranks(a, c, need),
{
    if seq_lt(a.site@, b.site@) && seq_lt(b.site@, c.site@) {
        lemma_seq_lt_transitive(a.site@, b.site@, c.site@);
    }
}

/// Anything that outranks `b` outranks whatever `b` is not outranked by.
pub proof fn lemma_outranks_past(c: SiteManifest, b: SiteManifest, j: SiteManifest, need: BrandNeed)
    requires
        outranks(c, b, need),
        !outranks(j, b, need),
    ensures
        outranks(c, j, need),
{
    if j.site@ != b.site@ {
        lemma_seq_lt_total(j.site@, b.site@);
    }
    if seq_lt(c.site@, b.site@) && seq_lt(b.site@, j.site@) {
        lemma_seq_lt_transitive(c.site@, b.site@, j.site@);
    }
}

/// At most one index is the selection.
pub proof fn lemma_selection_unique(ms: Seq<SiteManifest>, need: BrandNeed, k1: int, k2: int)
    requires
        is_selected(ms, need, k1),
        is_selected(ms, need, k2),
    ensures
        k1 == k2,
{
    if k1 < k2 {
        assert(eligible(ms[k1], need));
        assert(outranks(ms[k2], ms[k1], need));
        assert(!outranks(ms[k2], ms[k1], need));
    } else if k2 < k1 {
        assert(eligible(ms[k2], need));
        assert(outranks(ms[k1], ms[k2], need));
        assert(!outranks(ms[k1], ms[k2], need));
    }
}

/// When an eligible manifest names the make, the selection names it too;
/// among equally matching manifests, none carries fewer extra lanes than
/// the selection.
pub proof fn lemma_selection_prefers_exact_then_narrow(ms: Seq<SiteManifest>, need: BrandNeed, k: int, j: int)
    requires
        is_selected(ms, need, k),
        0 <= j < ms.len(),
        eligible(ms[j], need),
    ensures
        make_rank(ms[j], need.make@) <= make_rank(ms[k], need.make@),
        make_rank(ms[j], need.make@) == make_rank(ms[k], need.make@) ==> lane_surplus(ms[k], need) <= lane_surplus(ms[j], need),
{
    assert(!outranks(ms[j], ms[k], need));
}

/// A make is matched ignoring ASCII case and surrounding whitespace: two
/// makes that agree once trimmed and lowercased rank every manifest alike.
pub proof fn lemma_make_match_ignores_case_and_space(m: SiteManifest, a: Seq<char>, b: Seq<char>)
    requires
        lower_seq(trim(a)) == lower_seq(trim(b)),
    ensures
        make_rank(m, a) == make_rank(m, b),
{
    assert(normalize(a) == normalize(b));
}

/// A manifest that lists the make, in any ASCII case and with any
/// surrounding whitespace, is an exact match for it.
pub proof fn lemma_make_listed_in_any_case_is_exact(m: SiteManifest, make: Seq<char>, j: int)
    requires
        0 <= j < m.makes@.len(),
        lower_seq(trim(m.makes@[j]@)) == lower_seq(trim(make)),
    ensures
        names_make(m, make),
        make_rank(m, make) == 2,
{
    assert(normalize(m.makes@[j]@) == normalize(make));
}

/// Two requests that differ only in how the make is written (ASCII case,
/// surrounding whitespace) find the same eligible manifests, select the
/// same one, and describe it the same way, exact-make flag included.
pub proof fn lemma_selection_ignores_make_case(ms: Seq<SiteManifest>, n1: BrandNeed, n2: BrandNeed)
    requires
        lower_seq(trim(n1.make@)) == lower_seq(trim(n2.make@)),
        n1.lanes@ == n2.lanes@,
        n1.capabilities@ == n2.capabilities@,
    ensures
        has_eligible(ms, n1) == has_eligible(ms, n2),
        forall|k: int| #![trigger is_selected(ms, n1, k)] #![trigger is_selected(ms, n2, k)]
            is_selected(ms, n1, k) == is_selected(ms, n2, k),
        forall|sel: BrandSelection, m: SiteManifest| #![trigger selection_of(sel, m, n1)] #![trigger selection_of(sel, m, n2)]
            selection_of(sel, m, n1) == selection_of(sel, m, n2),
{
    assert(normalize(n1.make@) == normalize(n2.make@));
    assert forall|m: SiteManifest|
        #![trigger eligible(m, n1)]
        #![trigger eligible(m, n2)]
        #![trigger make_rank(m, n1.make@)]
        #![trigger lane_surplus(m, n1)]
        eligible(m, n1) == eligible(m, n2) && make_rank(m, n1.make@) == make_rank(m, n2.make@)
            && lane_surplus(m, n1) == lane_surplus(m, n2) by {
        lemma_make_match_ignores_case_and_space(m, n1.make@, n2.make@);
    }
    assert forall|a: SiteManifest, b: SiteManifest|
        #![trigger outranks(a, b, n1)]
        #![trigger outranks(a, b, n2)]
        outranks(a, b, n1) == outranks(a, b, n2) by {
        lemma_make_match_ignores_case_and_space(a, n1.make@, n2.make@);
        lemma_make_match_ignores_case_and_space(b, n1.make@, n2.make@);
    }
    if has_eligible(ms, n1) {
        let k = choose|k: int| 0 <= k < ms.len() && eligible(#[trigger] ms[k], n1);
        assert(eligible(ms[k], n2));
    }
    if has_eligible(ms, n2) {
        let k = choose|k: int| 0 <= k < ms.len() && eligible(#[trigger] ms[k], n2);
        assert(eligible(ms[k], n1));
    }
}

/// The make rank of one manifest.
fn make_rank_of(m: &SiteManifest, make: &str) -> (r: u8)
    ensures
        r as int == make_rank(*m, make@),
{
    let want = normalize_chars(make);
    let mut i: usize = 0;
    while i < m.makes.len()
        invariant
            want@ == normalize(make@),
            i <= m.makes@.len(),
            forall|j: int| 0 <= j < i ==> normalize(#[trigger] m.makes@[j]@) != normalize(make@),
        decreases m.makes@.len() - i,
    {
        let c = normalize_chars(m.makes[i].as_str());
        if chars_eq(c.as_slice(), want.as_slice()) {
            assert(normalize(m.makes@[i as int]@) == normalize(make@));
            return 2;
        }
        i = i + 1;
    }
    let b = normalize_chars(m.brand.as_str());
    if chars_eq(b.as_slice(), want.as_slice()) {
        return 2;
    }
    let any = chars_of("multi-brand");
    let mut i: usize = 0;
    while i < m.makes.len()
        invariant
            any@ == "multi-brand"@,
            !names_make(*m, make@),
            i <= m.makes@.len(),
            forall|j: int| 0 <= j < i ==> !is_any_make(#[trigger] m.makes@[j]@),
        decreases m.makes@.len() - i,
    {
        let star = str_eq(m.makes[i].as_str(), "*");
        let c = normalize_chars(m.makes[i].as_str());
        if star || chars_eq(c.as_slice(), any.as_slice()) {
            assert(is_any_make(m.makes@[i as int]@));
            return 1;
        }
        i = i + 1;
    }
    0
}

/// The normalized lane names of a manifest.
fn lane_keys_of(m: &SiteManifest) -> (r: Vec<Vec<char>>)
    ensures
        char_views(r@) == lane_keys(*m),
{
    let mut r: Vec<Vec<char>> = Vec::new();
    let mut i: usize = 0;
    while i < m.lanes.len()
        invariant
            i <= m.lanes@.len(),
            r@.len() == i,
            forall|j: int| 0 <= j < i ==> (#[trigger] r@[j])@ == normalize(m.lanes@[j]@),
        decreases m.lanes@.len() - i,
    {
        r.push(normalize_chars(m.lanes[i].as_str()));
        i = i + 1;
    }
    assert(char_views(r@) =~= lane_keys(*m));
    r
}

/// Whether `have` holds `key`.
fn holds_key(have: &[Vec<char>], key: &[char]) -> (r: bool)
    ensures
        r == char_views(have@).contains(key@),
{
    let mut i: usize = 0;
    while i < have.len()
        invariant
            i <= have@.len(),
            forall|j: int| 0 <= j < i ==> (#[trigger] have@[j])@ != key@,
        decreases have@.len() - i,
    {
        if chars_eq(have[i].as_slice(), key) {
            assert(char_views(have@)[i as int] == key@);
            return true;
        }
        i = i + 1;
    }
    assert(forall|j: int| 0 <= j < have@.len() ==> char_views(have@)[j] == (#[trigger] have@[j])@);
    false
}

/// The normalized required lanes absent from `have`.
fn missing_lanes_of(have: &[Vec<char>], required: &[AutoLane]) -> (r: Vec<Vec<char>>)
    ensures
        char_views(r@) == missing_lanes(char_views(have@), required@),
{
    let mut r: Vec<Vec<char>> = Vec::new();
    let mut i: usize = 0;
    while i < required.len()
        invariant
            i <= required@.len(),
            char_views(r@) == missing_lanes(char_views(have@), required@.subrange(0, i as int)),
        decreases required@.len() - i,
    {
        let key = normalize_chars(required[i].name.as_str());
        let present = holds_key(have, key.as_slice());
        let ghost before = r@;
        proof {
            let sub = required@.subrange(0, i + 1);
            assert(sub.drop_last() =~= required@.subrange(0, i as int));
            assert(sub.last() == required@[i as int]);
        }
        if !present {
            r.push(key);
            assert(char_views(r@) =~= char_views(before).push(key@));
        }
        i = i + 1;
    }
    assert(required@.subrange(0, required@.len() as int) =~= required@);
    r
}

/// The required capabilities that `ceiling` does not hold.
fn missing_caps_of(ceiling: &[CapabilityName], required: &[CapabilityName]) -> (r: Vec<Vec<char>>)
    ensures
        char_views(r@) == missing_caps(ceiling@, required@),
{
    let mut r: Vec<Vec<char>> = Vec::new();
    let mut i: usize = 0;
    while i < required.len()
        invariant
            i <= required@.len(),
            char_views(r@) == missing_caps(ceiling@, required@.subrange(0, i as int)),
        decreases required@.len() - i,
    {
        let held = has_cap(ceiling, &required[i]);
        let ghost before = r@;
        proof {
            let sub = required@.subrange(0, i + 1);
            assert(sub.drop_last() =~= required@.subrange(0, i as int));
            assert(sub.last() == required@[i as int]);
        }
        if !held {
            let text = chars_of(required[i].as_str());
            r.push(text);
            assert(char_views(r@) =~= char_views(before).push(required@[i as int]@));
        }
        i = i + 1;
    }
    assert(required@.subrange(0, required@.len() as int) =~= required@);
    r
}

/// `site`, then `word`, then the parts joined by commas.
fn note_of(site: &str, word: &str, parts: &[Vec<char>]) -> (r: Vec<char>)
    ensures
        r@ == site@ + word@ + join(char_views(parts@), ","@),
{
    let mut out = chars_of(site);
    push_str(&mut out, word);
    let mut joined = join_chars(parts, ",");
    out.append(&mut joined);
    out
}

/// Extra lanes of `m` beyond `required`, never negative.
fn lane_surplus_of(m: &SiteManifest, required: usize) -> (r: usize)
    ensures
        r == (if m.lanes@.len() >= required { m.lanes@.len() - required } else { 0 }),
{
    if m.lanes.len() >= required {
        m.lanes.len() - required
    } else {
        0
    }
}

/// Walks the manifests once: the index of the selection, if any, with the
/// denials and lane diagnostics met on the way.
fn scan_manifests(manifests: &[SiteManifest], need: &BrandNeed) -> (r: (Option<usize>, Vec<Vec<char>>, Vec<Vec<char>>))
    ensures
        char_views(r.1@) == denial_notes(manifests@, *need),
        char_views(r.2@) == lane_miss_notes(manifests@, *need),
        r.0 is None <==> !has_eligible(manifests@, *need),
        r.0 matches Some(k) ==> is_selected(manifests@, *need, k as int),
{
    let ghost ms = manifests@;
    let mut best: Option<usize> = None;
    let mut best_rank: u8 = 0;
    let mut best_surplus: usize = 0;
    let mut denials: Vec<Vec<char>> = Vec::new();
    let mut misses: Vec<Vec<char>> = Vec::new();
    let mut i: usize = 0;
    while i < manifests.len()
        invariant
            ms == manifests@,
            i <= ms.len(),
            char_views(denials@) == denial_notes(ms.subrange(0, i as int), *need),
            char_views(misses@) == lane_miss_notes(ms.subrange(0, i as int), *need),
            best is None ==> forall|j: int| 0 <= j < i ==> !eligible(#[trigger] ms[j], *need),
            best matches Some(b) ==> {
                &&& b < i
                &&& eligible(ms[b as int], *need)
                &&& best_rank as int == make_rank(ms[b as int], need.make@)
                &&& best_surplus as int == lane_surplus(ms[b as int], *need)
                &&& forall|j: int| 0 <= j < i && eligible(#[trigger] ms[j], *need) ==> !outranks(ms[j], ms[b as int], *need)
                &&& forall|j: int| 0 <= j < b && eligible(#[trigger] ms[j], *need) ==> outranks(ms[b as int], ms[j], *need)
            },
        decreases ms.len() - i,
    {
        let m = &manifests[i];
        let ghost sub = ms.subrange(0, i + 1);
        proof {
            assert(sub.drop_last() =~= ms.subrange(0, i as int));
            assert(sub.last() == ms[i as int]);
        }
        let rank = make_rank_of(m, need.make.as_str());
        if rank > 0 {
            let have = lane_keys_of(m);
            let lanes = missing_lanes_of(have.as_slice(), need.lanes.as_slice());
            if lanes.len() > 0 {
                let entry = note_of(m.site.as_str(), " missing ", lanes.as_slice());
                let ghost before = misses@;
                misses.push(entry);
                assert(char_views(misses@) =~= char_views(before).push(entry@));
            } else {
                let caps = missing_caps_of(m.ceiling.as_slice(), need.capabilities.as_slice());
                if caps.len() > 0 {
                    let entry = note_of(m.site.as_str(), " lacks ", caps.as_slice());
                    let ghost before = denials@;
                    denials.push(entry);
                    assert(char_views(denials@) =~= char_views(before).push(entry@));
                } else {
                    let surplus = lane_surplus_of(m, need.lanes.len());
                    let take = match best {
                        None => true,
                        Some(b) => {
                            rank > best_rank || (rank == best_rank && (surplus < best_surplus || (
                            surplus == best_surplus && str_lt(m.site.as_str(), manifests[b].site.as_str()))))
                        },
                    };
                    proof {
                        lemma_outranks_irreflexive(ms[i as int], *need);
                        if let Some(b) = best {
                            assert(take == outranks(ms[i as int], ms[b as int], *need));
                            if take {
                                assert forall|j: int| 0 <= j < i + 1 && eligible(#[trigger] ms[j], *need) implies !outranks(ms[j], ms[i as int], *need) by {
                                    if j < i && outranks(ms[j], ms[i as int], *need) {
                                        lemma_outranks_transitive(ms[j], ms[i as int], ms[b as int], *need);
                                    }
                                }
                                assert forall|j: int| 0 <= j < i && eligible(#[trigger] ms[j], *need) implies outranks(ms[i as int], ms[j], *need) by {
                                    lemma_outranks_past(ms[i as int], ms[b as int], ms[j], *need);
                                }
                            }
                        }
                    }
                    if take {
                        best = Some(i);
                        best_rank = rank;
                        best_surplus = surplus;
                    }
                }
            }
        }
        i = i + 1;
    }
    assert(ms.subrange(0, ms.len() as int) =~= ms);
    proof {
        if let Some(b) = best {
            assert(has_eligible(ms, *need)) by {
                assert(eligible(ms[b as int], *need));
            }
        }
    }
    (best, denials, misses)
}

/// Returns the best manifest for `need`.
pub fn select_brand(manifests: &[SiteManifest], need: &BrandNeed) -> (r: Result<BrandSelection>)
    ensures
        r is Ok <==> has_eligible(manifests@, *need),
        r matches Ok(sel) ==> exists|k: int| is_selected(manifests@, *need, k) && selection_of(sel, manifests@[k], *need),
        !has_eligible(manifests@, *need) && denial_notes(manifests@, *need).len() > 0 ==> (r matches Err(Error::Eval(msg))
            && msg@ == denied_message(*need, denial_notes(manifests@, *need))),
        !has_eligible(manifests@, *need) && denial_notes(manifests@, *need).len() == 0 ==> (r matches Err(Error::Eval(msg))
            && msg@ == no_match_message(*need, lane_miss_notes(manifests@, *need))),
{
    let (best, denials, misses) = scan_manifests(manifests, need);
    match best {
        Some(k) => {
            let m = &manifests[k];
            let rank = make_rank_of(m, need.make.as_str());
            let sel = BrandSelection {
                manifest: m.duplicate(),
                brand_caps: BrandCaps::new(m.brand.as_str(), duplicate_caps(m.ceiling.as_slice())),
                exact_make: rank == 2,
                lane_surplus: lane_surplus_of(m, need.lanes.len()),
            };
            assert(selection_of(sel, manifests@[k as int], *need));
            Ok(sel)
        },
        None => {
            if denials.len() > 0 {
                let mut text = chars_of("auto brand/select denied by capability ceiling for make ");
                push_str(&mut text, need.make.as_str());
                push_str(&mut text, ": ");
                let mut joined = join_chars(denials.as_slice(), "; ");
                text.append(&mut joined);
                Err(Error::Eval(string_of(text.as_slice())))
            } else {
                let mut names: Vec<Vec<char>> = Vec::new();
                let mut i: usize = 0;
                while i < need.lanes.len()
                    invariant
                        i <= need.lanes@.len(),
                        names@.len() == i,
                        forall|j: int| 0 <= j < i ==> (#[trigger] names@[j])@ == need.lanes@[j].name@,
                    decreases need.lanes@.len() - i,
                {
                    names.push(chars_of(need.lanes[i].name.as_str()));
                    i = i + 1;
                }
                assert(char_views(names@) =~= need.lanes@.map_values(|l: AutoLane| l.name@));
                let mut text = chars_of("no installed auto site matches vehicle make ");
                push_str(&mut text, need.make.as_str());
                push_str(&mut text, " and lanes ");
                let mut joined = join_chars(names.as_slice(), ",");
                text.append(&mut joined);
                if misses.len() > 0 {
                    push_str(&mut text, "; lane diagnostics: ");
                    let mut diag = join_chars(misses.as_slice(), "; ");
                    text.append(&mut diag);
                }
                Err(Error::Eval(string_of(text.as_slice())))
            }
        },
    }
}

/// Returns the best manifest's brand capabilities for `need`.
pub fn select_brand_caps(manifests: &[SiteManifest], need: &BrandNeed) -> (r: Result<BrandCaps>)
    ensures
        r is Ok <==> has_eligible(manifests@, *need),
        r matches Ok(caps) ==> exists|k: int| is_selected(manifests@, *need, k)
            && caps.brand@ == manifests@[k].brand@
            && cap_views(caps.capabilities@) == cap_views(manifests@[k].ceiling@),
        !has_eligible(manifests@, *need) && denial_notes(manifests@, *need).len() > 0 ==> (r matches Err(Error::Eval(msg))
            && msg@ == denied_message(*need, denial_notes(manifests@, *need))),
        !has_eligible(manifests@, *need) && denial_notes(manifests@, *need).len() == 0 ==> (r matches Err(Error::Eval(msg))
            && msg@ == no_match_message(*need, lane_miss_notes(manifests@, *need))),
{
    match select_brand(manifests, need) {
        Ok(sel) => Ok(sel.brand_caps),
        Err(e) => Err(e),
    }
}

/// Derives one brand capability row per installed manifest, in order.
pub fn installed_brand_caps(manifests: &[SiteManifest]) -> (r: Vec<BrandCaps>)
    ensures
        r@.len() == manifests@.len(),
        forall|k: int| 0 <= k < r@.len() ==> (#[trigger] r@[k]).brand@ == manifests@[k].brand@
            && cap_views(r@[k].capabilities@) == cap_views(manifests@[k].ceiling@),
{
    let mut r: Vec<BrandCaps> = Vec::new();
    let mut i: usize = 0;
    while i < manifests.len()
        invariant
            i <= manifests@.len(),
            r@.len() == i,
            forall|k: int| 0 <= k < i ==> (#[trigger] r@[k]).brand@ == manifests@[k].brand@
                && cap_views(r@[k].capabilities@) == cap_views(manifests@[k].ceiling@),
        decreases manifests@.len() - i,
    {
        let m = &manifests[i];
        r.push(BrandCaps::new(m.brand.as_str(), duplicate_caps(m.ceiling.as_slice())));
        i = i + 1;
    }
    r
}

} // verus!
