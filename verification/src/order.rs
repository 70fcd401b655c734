//! Work orders: the ledger of events a modeled job passes through, the
//! balanced invoice it ends in, and the conformance report over both.

use vstd::prelude::*;

use crate::domain::{AUTO_DIAGNOSTICS_READ, AUTO_ORDER, BrandCaps, VehicleId, strs};
use crate::kernel::{CapabilityName, cap_views};
use crate::parts::{OrderStatus, PartLine, PartLineView, line_views};
use crate::text::{
    chars_of, contains, contains_str, lemma_seq_lt_total, lemma_seq_lt_transitive,
    push_str, seq_lt, str_eq, str_lt, string_of,
};

verus! {

/// What an evidence record says: backend, external id, version, web URL
/// and immutability hint.
pub type EvidenceView = (Seq<char>, Seq<char>, Option<Seq<char>>, Option<Seq<char>>, Option<Seq<char>>);

/// The view of an optional string.
pub open spec fn opt_text(o: Option<String>) -> Option<Seq<char>> {
    match o {
        Some(s) => Some(s@),
        None => None,
    }
}

/// The view of an optional string slice.
pub open spec fn opt_str(o: Option<&str>) -> Option<Seq<char>> {
    match o {
        Some(s) => Some(s@),
        None => None,
    }
}

fn owned_opt(o: Option<&str>) -> (r: Option<String>)
    ensures
        opt_text(r) == opt_str(o),
{
    match o {
        Some(s) => Some(s.to_owned()),
        None => None,
    }
}

fn clone_opt(o: &Option<String>) -> (r: Option<String>)
    ensures
        opt_text(r) == opt_text(*o),
{
    match o {
        Some(s) => Some(s.clone()),
        None => None,
    }
}

/// Evidence tying an invoice to the ledger entry it came from.
#[derive(Clone, Debug, PartialEq, Eq)]
pub struct LedgerInvoiceEvidence {
    /// Ledger backend label.
    pub backend: String,
    /// External id in the ledger backend.
    pub external_id: String,
    /// Ledger record version, when known.
    pub version: Option<String>,
    /// Web URL of the ledger record, when published.
    pub web_url: Option<String>,
    /// Hint that the record is immutable, when known.
    pub immutable_hint: Option<String>,
}

impl View for LedgerInvoiceEvidence {
    type V = EvidenceView;

    open spec fn view(&self) -> EvidenceView {
        (self.backend@, self.external_id@, opt_text(self.version), opt_text(self.web_url), opt_text(self.immutable_hint))
    }
}

impl Default for LedgerInvoiceEvidence {
    fn default() -> (r: Self)
        ensures
            r@ == ("auto/work-order"@, "SIM-WO-1"@, Some("modeled-v0"@), None::<Seq<char>>, None::<Seq<char>>),
    {
        LedgerInvoiceEvidence::new("auto/work-order", "SIM-WO-1", Some("modeled-v0"), None, None)
    }
}

impl LedgerInvoiceEvidence {
    /// Builds an evidence record.
    pub fn new(
        backend: &str,
        external_id: &str,
        version: Option<&str>,
        web_url: Option<&str>,
        immutable_hint: Option<&str>,
    ) -> (r: Self)
        ensures
            r@ == (backend@, external_id@, opt_str(version), opt_str(web_url), opt_str(immutable_hint)),
    {
        LedgerInvoiceEvidence {
            backend: backend.to_owned(),
            external_id: external_id.to_owned(),
            version: owned_opt(version),
            web_url: owned_opt(web_url),
            immutable_hint: owned_opt(immutable_hint),
        }
    }
}

/// What a posting says: account, amount in minor units, text.
pub type PostingView = (Seq<char>, i64, Seq<char>);

/// One posting of an invoice voucher.
#[derive(Clone, Debug, PartialEq, Eq)]
pub struct LedgerInvoicePosting {
    /// Ledger account.
    pub account: String,
    /// Amount in minor currency units; debits positive, credits negative.
    pub amount_minor: i64,
    /// Posting text.
    pub text: String,
}

impl View for LedgerInvoicePosting {
    type V = PostingView;

    open spec fn view(&self) -> PostingView {
        (self.account@, self.amount_minor, self.text@)
    }
}

impl Default for LedgerInvoicePosting {
    fn default() -> (r: Self)
        ensures
            r@ == ("1510"@, 1000i64, "modeled customer receivable"@),
    {
        LedgerInvoicePosting::new("1510", 1_000, "modeled customer receivable")
    }
}

impl LedgerInvoicePosting {
    /// Builds a posting.
    pub fn new(account: &str, amount_minor: i64, text: &str) -> (r: Self)
        ensures
            r@ == (account@, amount_minor, text@),
    {
        LedgerInvoicePosting { account: account.to_owned(), amount_minor, text: text.to_owned() }
    }
}

/// The sum of the amounts of a list of postings.
pub open spec fn amounts_sum(ps: Seq<PostingView>) -> int
    decreases ps.len(),
{
    if ps.len() == 0 {
        0
    } else {
        amounts_sum(ps.drop_last()) + ps.last().1
    }
}

/// Whether every running sum of the amounts fits in an `i64`.
pub open spec fn sums_fit(ps: Seq<PostingView>) -> bool {
    forall|k: int| 0 <= k <= ps.len() ==> i64::MIN <= #[trigger] amounts_sum(ps.take(k)) <= i64::MAX
}

/// The views of a list of postings.
pub open spec fn posting_views(v: Seq<LedgerInvoicePosting>) -> Seq<PostingView> {
    v.map_values(|p: LedgerInvoicePosting| p@)
}

/// The views of a list of evidence records.
pub open spec fn evidence_views(v: Seq<LedgerInvoiceEvidence>) -> Seq<EvidenceView> {
    v.map_values(|e: LedgerInvoiceEvidence| e@)
}

/// The modeled unit price of an SKU in minor units: coils cost more.
pub open spec fn unit_minor(sku: Seq<char>) -> int {
    if contains(sku, "COIL"@) {
        54_900
    } else {
        19_900
    }
}

/// The modeled parts total in minor units.
pub open spec fn parts_total(lines: Seq<PartLineView>) -> int
    decreases lines.len(),
{
    if lines.len() == 0 {
        0
    } else {
        parts_total(lines.drop_last()) + lines.last().3 * unit_minor(lines.last().0)
    }
}

/// The modeled labor total in minor units.
pub open spec fn labor_total(minutes: u32) -> int {
    minutes * 1_250
}

/// Balanced invoice export data for a modeled work order.
#[derive(Clone, Debug, PartialEq, Eq)]
pub struct LedgerInvoiceExport {
    /// Voucher date.
    pub voucher_date: String,
    /// Voucher text.
    pub voucher_text: String,
    /// Currency code.
    pub currency: String,
    /// Voucher postings.
    pub postings: Vec<LedgerInvoicePosting>,
    /// Ledger evidence for the voucher.
    pub evidence: Vec<LedgerInvoiceEvidence>,
}

/// The parts total is never negative and grows with every line.
pub proof fn lemma_parts_total_bounds(lines: Seq<PartLineView>, k: int)
    requires
        0 <= k <= lines.len(),
    ensures
        0 <= parts_total(lines.take(k)) <= parts_total(lines),
    decreases lines.len(),
{
    if lines.len() > 0 {
        if k == lines.len() {
            assert(lines.take(k) =~= lines);
            lemma_parts_total_bounds(lines.drop_last(), lines.len() - 1);
            assert(lines.drop_last().take(lines.len() - 1) =~= lines.drop_last());
        } else {
            lemma_parts_total_bounds(lines.drop_last(), k);
            assert(lines.drop_last().take(k) =~= lines.take(k));
        }
        assert(lines.last().3 * unit_minor(lines.last().0) >= 0) by (nonlinear_arith)
            requires
                lines.last().3 >= 0,
                unit_minor(lines.last().0) >= 0,
        ;
    }
}

/// A single line contributes its quantity times its unit price.
pub proof fn lemma_parts_total_single(l: PartLineView)
    ensures
        parts_total(seq![l]) == l.3 * unit_minor(l.0),
{
    let ls = seq![l];
    assert(ls.drop_last() =~= Seq::<PartLineView>::empty());
    assert(parts_total(ls.drop_last()) == 0);
    assert(ls.last() == l);
}

/// The parts total of two lists of lines together is the sum of their
/// totals.
pub proof fn lemma_parts_total_concat(a: Seq<PartLineView>, b: Seq<PartLineView>)
    ensures
        parts_total(a + b) == parts_total(a) + parts_total(b),
    decreases b.len(),
{
    if b.len() == 0 {
        assert(a + b =~= a);
    } else {
        lemma_parts_total_concat(a, b.drop_last());
        assert((a + b).drop_last() =~= a + b.drop_last());
        assert((a + b).last() == b.last());
    }
}

/// The parts revenue of an invoice is the sum over its lines of quantity
/// times unit price: appending a line adds exactly its quantity times its
/// unit price, so doubling a line's quantity doubles what it adds, and the
/// parts posting of a one-line invoice credits exactly that amount.
pub proof fn lemma_parts_revenue_counts_quantity(lines: Seq<PartLineView>, l: PartLineView, labor: int)
    ensures
        parts_total(lines.push(l)) == parts_total(lines) + l.3 * unit_minor(l.0),
        l.3 <= u32::MAX / 2 ==> parts_total(seq![(l.0, l.1, l.2, (2 * l.3) as u32)]) == 2 * parts_total(seq![l]),
        work_order_postings(parts_total(seq![l]), labor)[1].1 == -(l.3 * unit_minor(l.0)),
        work_order_postings(parts_total(seq![l]), labor)[0].1 == l.3 * unit_minor(l.0) + labor,
{
    lemma_parts_total_single(l);
    lemma_parts_total_concat(lines, seq![l]);
    assert(lines + seq![l] =~= lines.push(l));
    let l2 = (l.0, l.1, l.2, (2 * l.3) as u32);
    lemma_parts_total_single(l2);
    if l.3 <= u32::MAX / 2 {
        assert(l2.3 == 2 * l.3);
        assert((2 * l.3) * unit_minor(l.0) == 2 * (l.3 * unit_minor(l.0))) by (nonlinear_arith);
    }
}

/// The modeled parts total of a list of lines.
fn parts_minor(parts: &[PartLine]) -> (r: i64)
    requires
        parts_total(line_views(parts@)) <= i64::MAX,
    ensures
        r as int == parts_total(line_views(parts@)),
{
    let ghost ls = line_views(parts@);
    let mut total: i64 = 0;
    let mut i: usize = 0;
    while i < parts.len()
        invariant
            ls == line_views(parts@),
            parts_total(ls) <= i64::MAX,
            i <= parts@.len(),
            total as int == parts_total(ls.take(i as int)),
        decreases parts@.len() - i,
    {
        proof {
            assert(ls.take(i + 1).drop_last() =~= ls.take(i as int));
            assert(ls.take(i + 1).last() == parts@[i as int]@);
            lemma_parts_total_bounds(ls, i + 1);
        }
        let unit: i64 = if contains_str(parts[i].sku.as_str(), "COIL") {
            54_900
        } else {
            19_900
        };
        let qty = parts[i].qty as i64;
        assert(qty * unit <= 4294967295 * 54900) by (nonlinear_arith)
            requires
                0 <= qty <= 4294967295,
                0 <= unit <= 54900,
        ;
        total = total + qty * unit;
        i = i + 1;
    }
    assert(ls.take(parts@.len() as int) =~= ls);
    total
}

/// The voucher postings of a work order: the receivable, and the parts and
/// labor revenue that balance it.
pub open spec fn work_order_postings(parts: int, labor: int) -> Seq<(Seq<char>, int, Seq<char>)> {
    let total = parts + labor;
    let parts_credit = 0 - parts;
    let labor_credit = 0 - labor;
    seq![
        ("1510"@, total, "customer receivable"@),
        ("3041"@, parts_credit, "modeled parts revenue"@),
        ("3051"@, labor_credit, "modeled labor revenue"@),
    ]
}

/// A posting view with its amount as an integer.
pub open spec fn wide(p: PostingView) -> (Seq<char>, int, Seq<char>) {
    (p.0, p.1 as int, p.2)
}

impl LedgerInvoiceExport {
    /// Builds the balanced invoice for a work order: the parts at their
    /// modeled unit prices and the labor at 1 250 minor units a minute.
    pub fn for_work_order(work_order_id: &str, order: &OrderStatus, parts: &[PartLine], labor_minutes: u32) -> (r: Self)
        requires
            parts_total(line_views(parts@)) + labor_total(labor_minutes) <= i64::MAX,
        ensures
            r.voucher_date@ == "2026-01-15"@,
            r.voucher_text@ == "modeled work order "@ + work_order_id@ + " "@ + order.id@,
            r.currency@ == "SEK"@,
            posting_views(r.postings@).map_values(|p: PostingView| wide(p)) == work_order_postings(
                parts_total(line_views(parts@)),
                labor_total(labor_minutes),
            ),
            evidence_views(r.evidence@) == seq![
                ("auto/work-order"@, work_order_id@, Some("modeled-v0"@), None::<Seq<char>>, Some(order.ledger_ref@)),
            ],
            amounts_sum(posting_views(r.postings@)) == 0,
            sums_fit(posting_views(r.postings@)),
    {
        proof {
            lemma_parts_total_bounds(line_views(parts@), 0);
            assert(line_views(parts@).take(0) =~= Seq::<PartLineView>::empty());
        }
        let parts_minor = parts_minor(parts);
        let labor_minor = (labor_minutes as i64) * 1_250;
        let total_minor = parts_minor + labor_minor;
        let mut text = chars_of("modeled work order ");
        push_str(&mut text, work_order_id);
        push_str(&mut text, " ");
        push_str(&mut text, order.id.as_str());
        let parts_credit = -parts_minor;
        let labor_credit = -labor_minor;
        let postings = vec![
            LedgerInvoicePosting::new("1510", total_minor, "customer receivable"),
            LedgerInvoicePosting::new("3041", parts_credit, "modeled parts revenue"),
            LedgerInvoicePosting::new("3051", labor_credit, "modeled labor revenue"),
        ];
        let evidence = vec![
            LedgerInvoiceEvidence::new(
                "auto/work-order",
                work_order_id,
                Some("modeled-v0"),
                None,
                Some(order.ledger_ref.as_str()),
            ),
        ];
        let r = LedgerInvoiceExport {
            voucher_date: "2026-01-15".to_owned(),
            voucher_text: string_of(text.as_slice()),
            currency: "SEK".to_owned(),
            postings,
            evidence,
        };
        proof {
            let ps = posting_views(r.postings@);
            assert(ps.map_values(|p: PostingView| wide(p)) =~= work_order_postings(
                parts_total(line_views(parts@)),
                labor_total(labor_minutes),
            ));
            assert(evidence_views(r.evidence@) =~= seq![
                ("auto/work-order"@, work_order_id@, Some("modeled-v0"@), None::<Seq<char>>, Some(order.ledger_ref@)),
            ]);
            assert(ps.len() == 3);
            assert(ps[0].1 == total_minor);
            assert(ps[1].1 == parts_credit);
            assert(ps[2].1 == labor_credit);
            assert(ps.take(0) =~= Seq::<PostingView>::empty());
            assert(amounts_sum(ps.take(0)) == 0);
            assert(ps.take(1).drop_last() =~= ps.take(0));
            assert(ps.take(1).last() == ps[0]);
            assert(ps.take(2).last() == ps[1]);
            assert(ps.take(3).last() == ps[2]);
            assert(ps.take(2).drop_last() =~= ps.take(1));
            assert(ps.take(3).drop_last() =~= ps.take(2));
            assert(ps.take(3) =~= ps);
            assert(amounts_sum(ps.take(1)) == total_minor);
            assert(amounts_sum(ps.take(2)) == labor_minor);
            assert(amounts_sum(ps.take(3)) == 0);
        }
        r
    }

    /// Whether the postings sum to zero.
    pub fn is_balanced(&self) -> (r: bool)
        requires
            sums_fit(posting_views(self.postings@)),
        ensures
            r == (amounts_sum(posting_views(self.postings@)) == 0),
    {
        self.minor_sum() == 0
    }

    /// The sum of the posting amounts.
    pub fn minor_sum(&self) -> (r: i64)
        requires
            sums_fit(posting_views(self.postings@)),
        ensures
            r as int == amounts_sum(posting_views(self.postings@)),
    {
        let ghost ps = posting_views(self.postings@);
        let mut sum: i64 = 0;
        let mut i: usize = 0;
        assert(ps.take(0) =~= Seq::<PostingView>::empty());
        while i < self.postings.len()
            invariant
                ps == posting_views(self.postings@),
                sums_fit(ps),
                i <= self.postings@.len(),
                sum as int == amounts_sum(ps.take(i as int)),
            decreases self.postings@.len() - i,
        {
            proof {
                assert(ps.take(i + 1).drop_last() =~= ps.take(i as int));
                assert(ps.take(i + 1).last() == self.postings@[i as int]@);
                assert(i64::MIN <= amounts_sum(ps.take(i + 1)) <= i64::MAX);
            }
            sum = sum + self.postings[i].amount_minor;
            i = i + 1;
        }
        assert(ps.take(self.postings@.len() as int) =~= ps);
        sum
    }
}

/// An invoice whose postings balance, by construction.
pub proof fn lemma_work_order_invoice_balances(parts: int, labor: int)
    ensures
        work_order_postings(parts, labor)[0].1 + work_order_postings(parts, labor)[1].1 + work_order_postings(
            parts,
            labor,
        )[2].1 == 0,
{
}

impl Default for LedgerInvoiceExport {
    fn default() -> (r: Self)
        ensures
            r.voucher_date@ == "2026-01-15"@,
            r.currency@ == "SEK"@,
            amounts_sum(posting_views(r.postings@)) == 0,
            sums_fit(posting_views(r.postings@)),
    {
        let order = OrderStatus::default();
        let parts = vec![PartLine::default()];
        proof {
            let ls = line_views(parts@);
            assert(parts@.len() == 1);
            assert(ls.len() == 1);
            assert(ls.drop_last() =~= Seq::<PartLineView>::empty());
            assert(parts_total(ls.drop_last()) == 0);
            assert(ls.last() == ls[0]);
            assert(parts_total(ls) == ls[0].3 * unit_minor(ls[0].0));
        }
        LedgerInvoiceExport::for_work_order("SIM-WO-1", &order, parts.as_slice(), 90)
    }
}

/// What an event says: site, operation, lane, capability, effect, outcome,
/// note, delegated capabilities.
pub struct EventView {
    /// Site label.
    pub site: Seq<char>,
    /// Operation.
    pub operation: Seq<char>,
    /// Lane.
    pub lane: Seq<char>,
    /// Capability used.
    pub capability: Seq<char>,
    /// Effect class.
    pub effect: Seq<char>,
    /// Outcome.
    pub outcome: Seq<char>,
    /// Note.
    pub note: Seq<char>,
    /// Delegated capabilities.
    pub delegated_capabilities: Seq<Seq<char>>,
}

/// One event of a work order: which site did what, under which capability,
/// and how it ended.
#[derive(Clone, Debug, PartialEq, Eq)]
pub struct WorkOrderEvent {
    /// Site that handled the step.
    pub site: String,
    /// Operation performed.
    pub operation: String,
    /// Lane the step ran in.
    pub lane: String,
    /// Capability the step used.
    pub capability: String,
    /// Effect class of the step.
    pub effect: String,
    /// `accepted` or `denied`.
    pub outcome: String,
    /// Human-facing note.
    pub note: String,
    /// Capabilities delegated to the site.
    pub delegated_capabilities: Vec<String>,
}

impl View for WorkOrderEvent {
    type V = EventView;

    open spec fn view(&self) -> EventView {
        EventView {
            site: self.site@,
            operation: self.operation@,
            lane: self.lane@,
            capability: self.capability@,
            effect: self.effect@,
            outcome: self.outcome@,
            note: self.note@,
            delegated_capabilities: strs(self.delegated_capabilities@),
        }
    }
}

/// The fields an event is built from.
pub struct WorkOrderEventInput {
    /// Site that handled the step.
    pub site: String,
    /// Operation performed.
    pub operation: String,
    /// Lane the step ran in.
    pub lane: String,
    /// Capability the step used.
    pub capability: CapabilityName,
    /// Effect class of the step.
    pub effect: String,
    /// `accepted` or `denied`.
    pub outcome: String,
    /// Human-facing note.
    pub note: String,
    /// Capabilities delegated to the site.
    pub delegated_capabilities: Vec<CapabilityName>,
}

impl WorkOrderEvent {
    /// Builds an event from its input, capabilities spelled out.
    pub fn from_input(input: WorkOrderEventInput) -> (r: Self)
        ensures
            r@ == (EventView {
                site: input.site@,
                operation: input.operation@,
                lane: input.lane@,
                capability: input.capability@,
                effect: input.effect@,
                outcome: input.outcome@,
                note: input.note@,
                delegated_capabilities: cap_views(input.delegated_capabilities@),
            }),
    {
        let mut delegated: Vec<String> = Vec::new();
        let mut i: usize = 0;
        while i < input.delegated_capabilities.len()
            invariant
                i <= input.delegated_capabilities@.len(),
                delegated@.len() == i,
                forall|k: int| 0 <= k < i ==> (#[trigger] delegated@[k])@ == input.delegated_capabilities@[k]@,
            decreases input.delegated_capabilities@.len() - i,
        {
            delegated.push(input.delegated_capabilities[i].as_str().to_owned());
            i = i + 1;
        }
        assert(strs(delegated@) =~= cap_views(input.delegated_capabilities@));
        WorkOrderEvent {
            capability: input.capability.as_str().to_owned(),
            site: input.site,
            operation: input.operation,
            lane: input.lane,
            effect: input.effect,
            outcome: input.outcome,
            note: input.note,
            delegated_capabilities: delegated,
        }
    }

    /// Whether the step was accepted.
    pub fn accepted(&self) -> (r: bool)
        ensures
            r == (self.outcome@ == "accepted"@),
    {
        str_eq(self.outcome.as_str(), "accepted")
    }

    /// Whether the step was denied.
    pub fn denied(&self) -> (r: bool)
        ensures
            r == (self.outcome@ == "denied"@),
    {
        str_eq(self.outcome.as_str(), "denied")
    }
}

impl Default for WorkOrderEvent {
    fn default() -> (r: Self)
        ensures
            r@ == (EventView {
                site: "xentry"@,
                operation: "read/dtc"@,
                lane: "read"@,
                capability: "auto/diagnostics/read"@,
                effect: "pure"@,
                outcome: "accepted"@,
                note: "modeled diagnostic read"@,
                delegated_capabilities: seq!["auto/diagnostics/read"@],
            }),
    {
        let delegated = vec![CapabilityName::new(AUTO_DIAGNOSTICS_READ)];
        assert(cap_views(delegated@) =~= seq!["auto/diagnostics/read"@]);
        WorkOrderEvent::from_input(WorkOrderEventInput {
            site: "xentry".to_owned(),
            operation: "read/dtc".to_owned(),
            lane: "read".to_owned(),
            capability: CapabilityName::new(AUTO_DIAGNOSTICS_READ),
            effect: "pure".to_owned(),
            outcome: "accepted".to_owned(),
            note: "modeled diagnostic read".to_owned(),
            delegated_capabilities: delegated,
        })
    }
}

/// The number of events with outcome `outcome`.
pub open spec fn count_outcome(events: Seq<EventView>, outcome: Seq<char>) -> nat
    decreases events.len(),
{
    if events.len() == 0 {
        0
    } else {
        count_outcome(events.drop_last(), outcome) + (if events.last().outcome == outcome { 1nat } else { 0nat })
    }
}

/// Whether a list of labels is strictly increasing, hence free of repeats.
pub open spec fn strictly_sorted(v: Seq<Seq<char>>) -> bool {
    forall|i: int, j: int| 0 <= i < j < v.len() ==> seq_lt(#[trigger] v[i], #[trigger] v[j])
}

/// Whether some event ran at `site`.
pub open spec fn visited(events: Seq<EventView>, site: Seq<char>) -> bool {
    exists|i: int| 0 <= i < events.len() && (#[trigger] events[i]).site == site
}

/// Ordered events of a work order.
#[derive(Clone, Debug, Default, PartialEq, Eq)]
pub struct WorkOrderLedger {
    /// Events in the order they happened.
    pub events: Vec<WorkOrderEvent>,
}

/// The views of a list of events.
pub open spec fn event_views(v: Seq<WorkOrderEvent>) -> Seq<EventView> {
    v.map_values(|e: WorkOrderEvent| e@)
}

/// Inserts `s` into a strictly sorted list, unless it is there already.
pub fn insert_sorted(v: &mut Vec<String>, s: &str)
    requires
        strictly_sorted(strs(old(v)@)),
    ensures
        strictly_sorted(strs(final(v)@)),
        forall|x: Seq<char>| strs(final(v)@).contains(x) <==> (strs(old(v)@).contains(x) || x == s@),
{
    let ghost w = strs(v@);
    let mut k: usize = 0;
    while k < v.len() && str_lt(v[k].as_str(), s)
        invariant
            w == strs(v@),
            k <= v@.len(),
            forall|i: int| 0 <= i < k ==> seq_lt(#[trigger] w[i], s@),
        decreases v@.len() - k,
    {
        k = k + 1;
    }
    if k < v.len() && str_eq(v[k].as_str(), s) {
        assert(w[k as int] == s@);
        return;
    }
    v.insert(k, s.to_owned());
    proof {
        let n = strs(v@);
        assert(n =~= w.insert(k as int, s@));
        if k < w.len() {
            assert(!seq_lt(w[k as int], s@));
            assert(w[k as int] != s@);
            lemma_seq_lt_total(w[k as int], s@);
        }
        assert forall|i: int, j: int| 0 <= i < j < n.len() implies seq_lt(#[trigger] n[i], #[trigger] n[j]) by {
            if i < k && j == k {
            } else if i < k && j > k {
                assert(seq_lt(w[i], s@));
                if j - 1 > k {
                    assert(seq_lt(w[k as int], w[j - 1]));
                    lemma_seq_lt_transitive(s@, w[k as int], w[j - 1]);
                }
                lemma_seq_lt_transitive(w[i], s@, w[j - 1]);
            } else if i == k {
                if j - 1 > k {
                    assert(seq_lt(w[k as int], w[j - 1]));
                    lemma_seq_lt_transitive(s@, w[k as int], w[j - 1]);
                }
            } else if i > k {
                assert(seq_lt(w[i - 1], w[j - 1]));
            } else {
                assert(seq_lt(w[i], w[j]));
            }
        }
        assert forall|x: Seq<char>| n.contains(x) <==> (w.contains(x) || x == s@) by {
            if n.contains(x) {
                let i = choose|i: int| 0 <= i < n.len() && n[i] == x;
                if i < k {
                    assert(w[i] == x);
                } else if i > k {
                    assert(w[i - 1] == x);
                }
            }
            if w.contains(x) {
                let i = choose|i: int| 0 <= i < w.len() && w[i] == x;
                if i < k {
                    assert(n[i] == x);
                } else {
                    assert(n[i + 1] == x);
                }
            }
            if x == s@ {
                assert(n[k as int] == x);
            }
        }
    }
}

impl WorkOrderLedger {
    /// Builds an empty work-order ledger.
    pub fn new() -> (r: Self)
        ensures
            r.events@.len() == 0,
    {
        WorkOrderLedger { events: Vec::new() }
    }

    /// Appends one event.
    pub fn push(&mut self, event: WorkOrderEvent)
        ensures
            final(self).events@ == old(self).events@.push(event),
    {
        self.events.push(event);
    }

    /// Number of accepted events.
    pub fn accepted_count(&self) -> (r: usize)
        ensures
            r == count_outcome(event_views(self.events@), "accepted"@),
    {
        self.count_where(true)
    }

    /// Number of denied events.
    pub fn denied_count(&self) -> (r: usize)
        ensures
            r == count_outcome(event_views(self.events@), "denied"@),
    {
        self.count_where(false)
    }

    fn count_where(&self, accepted: bool) -> (r: usize)
        ensures
            r == count_outcome(event_views(self.events@), if accepted { "accepted"@ } else { "denied"@ }),
    {
        let ghost es = event_views(self.events@);
        let ghost want = if accepted { "accepted"@ } else { "denied"@ };
        let mut n: usize = 0;
        let mut i: usize = 0;
        while i < self.events.len()
            invariant
                es == event_views(self.events@),
                want == (if accepted { "accepted"@ } else { "denied"@ }),
                i <= self.events@.len(),
                n == count_outcome(es.take(i as int), want),
                n <= i,
            decreases self.events@.len() - i,
        {
            proof {
                assert(es.take(i + 1).drop_last() =~= es.take(i as int));
                assert(es.take(i + 1).last() == self.events@[i as int]@);
            }
            let hit = if accepted {
                self.events[i].accepted()
            } else {
                self.events[i].denied()
            };
            if hit {
                n = n + 1;
            }
            i = i + 1;
        }
        assert(es.take(self.events@.len() as int) =~= es);
        n
    }

    /// The distinct sites visited, in ascending order.
    pub fn sites(&self) -> (r: Vec<String>)
        ensures
            strictly_sorted(strs(r@)),
            forall|x: Seq<char>| strs(r@).contains(x) <==> visited(event_views(self.events@), x),
    {
        let ghost es = event_views(self.events@);
        let mut out: Vec<String> = Vec::new();
        let mut i: usize = 0;
        while i < self.events.len()
            invariant
                es == event_views(self.events@),
                i <= self.events@.len(),
                strictly_sorted(strs(out@)),
                forall|x: Seq<char>| strs(out@).contains(x) <==> visited(es.take(i as int), x),
            decreases self.events@.len() - i,
        {
            insert_sorted(&mut out, self.events[i].site.as_str());
            proof {
                let t = es.take(i + 1);
                assert forall|x: Seq<char>| visited(t, x) <==> (visited(es.take(i as int), x) || x == self.events@[i as int].site@) by {
                    if visited(t, x) {
                        let j = choose|j: int| 0 <= j < t.len() && (#[trigger] t[j]).site == x;
                        if j < i {
                            assert(es.take(i as int)[j] == t[j]);
                        }
                    }
                    if visited(es.take(i as int), x) {
                        let j = choose|j: int| 0 <= j < i && (#[trigger] es.take(i as int)[j]).site == x;
                        assert(t[j] == es.take(i as int)[j]);
                    }
                    if x == self.events@[i as int].site@ {
                        assert(t[i as int].site == x);
                    }
                }
            }
            i = i + 1;
        }
        assert(es.take(self.events@.len() as int) =~= es);
        out
    }
}

/// One modeled work order across the vendor sites.
#[derive(Clone, Debug, PartialEq, Eq)]
pub struct WorkOrder {
    /// Work-order id.
    pub id: String,
    /// Vehicle the work order serves.
    pub vehicle: VehicleId,
    /// Shop capability profile the work order runs under.
    pub site: BrandCaps,
    /// Events so far.
    pub ledger: WorkOrderLedger,
    /// Parts the work order uses.
    pub parts: Vec<PartLine>,
    /// Supplier order status, once ordered.
    pub order_status: Option<OrderStatus>,
    /// Invoice, once exported.
    pub invoice: Option<LedgerInvoiceExport>,
}

impl WorkOrder {
    /// Builds a work order for `vehicle` under the shop profile
    /// `modeled-shop` holding `parent_grants`, with the default part line
    /// and nothing ordered or invoiced yet.
    pub fn new(id: &str, vehicle: VehicleId, parent_grants: Vec<CapabilityName>) -> (r: Self)
        ensures
            r.id@ == id@,
            r.vehicle == vehicle,
            r.site.brand@ == "modeled-shop"@,
            cap_views(r.site.capabilities@) == cap_views(parent_grants@),
            r.ledger.events@.len() == 0,
            line_views(r.parts@) == seq![("SIM-COIL-1"@, Some("A0001500180"@), "modeled ignition coil"@, 1u32)],
            r.order_status is None,
            r.invoice is None,
    {
        let parts = vec![PartLine::default()];
        assert(line_views(parts@) =~= seq![("SIM-COIL-1"@, Some("A0001500180"@), "modeled ignition coil"@, 1u32)]);
        WorkOrder {
            id: id.to_owned(),
            vehicle,
            site: BrandCaps::new("modeled-shop", parent_grants),
            ledger: WorkOrderLedger::new(),
            parts,
            order_status: None,
            invoice: None,
        }
    }
}

impl Default for WorkOrder {
    fn default() -> (r: Self)
        ensures
            r.id@ == "SIM-WO-1"@,
            r.vehicle.namespace@ == "modeled-se"@,
            r.vehicle.key@ == "vehicle-alpha"@,
            r.site.brand@ == "modeled-shop"@,
            cap_views(r.site.capabilities@) == seq!["auto/diagnostics/read"@, "auto/order"@],
            r.ledger.events@.len() == 0,
            line_views(r.parts@) == seq![("SIM-COIL-1"@, Some("A0001500180"@), "modeled ignition coil"@, 1u32)],
            r.order_status matches Some(s) && s@ == crate::parts::accepted_status(
                "SIM-ORDER-1"@,
                crate::parts::Supplier::MekonomenProModeled,
                1,
            ),
            r.invoice matches Some(inv) && amounts_sum(posting_views(inv.postings@)) == 0 && sums_fit(
                posting_views(inv.postings@),
            ),
    {
        let grants = vec![CapabilityName::new(AUTO_DIAGNOSTICS_READ), CapabilityName::new(AUTO_ORDER)];
        assert(cap_views(grants@) =~= seq!["auto/diagnostics/read"@, "auto/order"@]);
        let mut order = WorkOrder::new("SIM-WO-1", VehicleId::new("modeled-se", "vehicle-alpha"), grants);
        order.order_status = Some(OrderStatus::default());
        order.invoice = Some(LedgerInvoiceExport::default());
        order
    }
}

/// Whether a work order conforms: it visited the expected number of sites,
/// with no delegation violation, no issue, and a balanced invoice.
pub open spec fn conforms(order: WorkOrder, site_count: int, expected: int, violations: int, issues: int) -> bool {
    &&& site_count == expected
    &&& violations == 0
    &&& issues == 0
    &&& order.invoice matches Some(inv) && amounts_sum(posting_views(inv.postings@)) == 0
}

/// Conformance result for one modeled work order.
#[derive(Clone, Debug, Default, PartialEq, Eq)]
pub struct ConformanceReport {
    /// Whether the work order conforms.
    pub passed: bool,
    /// The work order checked.
    pub work_order: WorkOrder,
    /// Distinct sites the work order visited.
    pub site_count: u32,
    /// Sites it was expected to visit.
    pub expected_site_count: u32,
    /// Accepted events.
    pub accepted_count: u32,
    /// Denied events.
    pub denied_count: u32,
    /// Delegation violations found.
    pub delegation_violations: Vec<String>,
    /// Other issues found.
    pub issues: Vec<String>,
}

impl ConformanceReport {
    /// Checks a work order against the number of sites it should visit.
    pub fn new(
        work_order: WorkOrder,
        expected_site_count: usize,
        delegation_violations: Vec<String>,
        issues: Vec<String>,
    ) -> (r: Self)
        requires
            work_order.invoice matches Some(inv) ==> sums_fit(posting_views(inv.postings@)),
        ensures
            r.work_order == work_order,
            r.delegation_violations == delegation_violations,
            r.issues == issues,
            exists|sites: Seq<Seq<char>>| {
                &&& strictly_sorted(sites)
                &&& (forall|x: Seq<char>| sites.contains(x) <==> visited(event_views(work_order.ledger.events@), x))
                &&& r.site_count == sites.len() as u32
                &&& r.passed == conforms(
                    work_order,
                    sites.len() as int,
                    expected_site_count as int,
                    delegation_violations@.len() as int,
                    issues@.len() as int,
                )
            },
            r.expected_site_count == expected_site_count as u32,
            r.accepted_count == count_outcome(event_views(work_order.ledger.events@), "accepted"@) as u32,
            r.denied_count == count_outcome(event_views(work_order.ledger.events@), "denied"@) as u32,
    {
        let sites = work_order.ledger.sites();
        let site_count = sites.len();
        let accepted_count = work_order.ledger.accepted_count();
        let denied_count = work_order.ledger.denied_count();
        let balanced = match &work_order.invoice {
            Some(inv) => inv.is_balanced(),
            None => false,
        };
        let passed = site_count == expected_site_count && delegation_violations.len() == 0 && issues.len() == 0
            && balanced;
        proof {
            assert(strs(sites@).len() == site_count);
        }
        #[verifier::truncate]
        let site_count32 = site_count as u32;
        #[verifier::truncate]
        let expected32 = expected_site_count as u32;
        #[verifier::truncate]
        let accepted32 = accepted_count as u32;
        #[verifier::truncate]
        let denied32 = denied_count as u32;
        ConformanceReport {
            passed,
            work_order,
            site_count: site_count32,
            expected_site_count: expected32,
            accepted_count: accepted32,
            denied_count: denied32,
            delegation_violations,
            issues,
        }
    }
}

} // verus!
