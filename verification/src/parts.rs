//! Parts catalogs, suppliers, part lines, order statuses, and the modeled
//! supplier order that a warranted effect carries out.

use vstd::prelude::*;

use crate::domain::{AUTO_ORDER, SiteManifest, strs};
use crate::kernel::{CapabilityName, Error, Result, cap_views};
use crate::numtext::{decimal, decimal_chars};
use crate::text::{
    is_space, trim_end, trim_start, char_views, chars_eq, chars_of, join, join_chars, lower_chars, lower_seq, push_str, replace_char, string_of,
    trim, trim_chars,
};

verus! {

/// Capability a live supplier order needs for its network transport.
pub const NET_HTTP_CAPABILITY: &'static str = "net/http";

/// Operation name of a supplier order.
pub const ORDER_OPERATION: &'static str = "order/place";

/// Label normalization for catalogs and suppliers: trim, ASCII-lowercase,
/// `_` to `-`.
pub open spec fn dash_key(s: Seq<char>) -> Seq<char> {
    replace_char(lower_seq(trim(s)), '_', '-')
}

/// A label with no surrounding space, no upper-case letter and no
/// underscore is its own normal form.
pub proof fn lemma_dash_key_fixed(s: Seq<char>)
    requires
        s.len() > 0,
        !is_space(s[0]),
        !is_space(s.last()),
        forall|i: int| 0 <= i < s.len() ==> !('A' <= #[trigger] s[i] && s[i] <= 'Z') && s[i] != '_',
    ensures
        dash_key(s) == s,
{
    assert(trim_start(s) == s);
    assert(trim_end(s) == s);
    assert(trim(s) == s);
    assert(lower_seq(s) =~= s);
    assert(replace_char(s, '_', '-') =~= s);
}

/// Label normalization on characters.
pub fn dash_key_chars(s: &str) -> (r: Vec<char>)
    ensures
        r@ == dash_key(s@),
{
    let v = chars_of(s);
    let t = trim_chars(v.as_slice());
    let l = lower_chars(t.as_slice());
    let mut r: Vec<char> = Vec::new();
    let mut i: usize = 0;
    while i < l.len()
        invariant
            i <= l@.len(),
            r@.len() == i,
            forall|k: int| 0 <= k < i ==> r@[k] == (if l@[k] == '_' { '-' } else { l@[k] }),
        decreases l@.len() - i,
    {
        if l[i] == '_' {
            r.push('-');
        } else {
            r.push(l[i]);
        }
        i = i + 1;
    }
    assert(r@ =~= dash_key(s@));
    r
}

/// Whether `n` spells `lit`.
fn is_lit(n: &[char], lit: &str) -> (r: bool)
    ensures
        r == (n@ == lit@),
{
    let l = chars_of(lit);
    chars_eq(n, l.as_slice())
}

/// Source family for modeled parts lookup.
#[derive(Clone, Copy, Debug, PartialEq, Eq, Structural)]
pub enum PartsCatalog {
    /// Mercedes EPC-shaped modeled catalog.
    EpcModeled,
    /// Mekonomen-style aftermarket modeled catalog.
    AftermarketModeled,
}

/// The catalog a request label names, if any.
pub open spec fn parse_catalog(label: Seq<char>) -> Option<PartsCatalog> {
    let n = dash_key(label);
    if n == "epc"@ || n == "epc-modeled"@ || n == "mercedes-epc"@ {
        Some(PartsCatalog::EpcModeled)
    } else if n == "aftermarket"@ || n == "aftermarket-modeled"@ || n == "mekonomen"@ || n == "mekonomen-modeled"@ {
        Some(PartsCatalog::AftermarketModeled)
    } else {
        None
    }
}

impl PartsCatalog {
    /// Parses a request catalog label.
    pub fn parse(label: &str) -> (r: Option<Self>)
        ensures
            r == parse_catalog(label@),
    {
        let k = dash_key_chars(label);
        let n = k.as_slice();
        if is_lit(n, "epc") || is_lit(n, "epc-modeled") || is_lit(n, "mercedes-epc") {
            Some(PartsCatalog::EpcModeled)
        } else if is_lit(n, "aftermarket") || is_lit(n, "aftermarket-modeled") || is_lit(n, "mekonomen") || is_lit(
            n,
            "mekonomen-modeled",
        ) {
            Some(PartsCatalog::AftermarketModeled)
        } else {
            None
        }
    }

    /// Stable catalog label.
    pub fn as_str(self) -> (r: &'static str)
        ensures
            r@ == (match self {
                PartsCatalog::EpcModeled => "epc-modeled"@,
                PartsCatalog::AftermarketModeled => "aftermarket-modeled"@,
            }),
    {
        match self {
            PartsCatalog::EpcModeled => "epc-modeled",
            PartsCatalog::AftermarketModeled => "aftermarket-modeled",
        }
    }
}

/// Supplier selected for one parts order.
#[derive(Clone, Copy, Debug, PartialEq, Eq, Structural)]
pub enum Supplier {
    /// Mekonomen Pro-shaped modeled supplier.
    MekonomenProModeled,
    /// Live Mekonomen Pro supplier behind a host-owned transport.
    MekonomenProLive,
}

/// The supplier a request label names, if any.
pub open spec fn parse_supplier(label: Seq<char>) -> Option<Supplier> {
    let n = dash_key(label);
    if n == "mekonomen-pro"@ || n == "mekonomen-pro-modeled"@ || n == "modeled"@ {
        Some(Supplier::MekonomenProModeled)
    } else if n == "mekonomen-pro-live"@ || n == "live"@ {
        Some(Supplier::MekonomenProLive)
    } else {
        None
    }
}

/// The stable label of a supplier.
pub open spec fn supplier_label(s: Supplier) -> Seq<char> {
    match s {
        Supplier::MekonomenProModeled => "mekonomen-pro-modeled"@,
        Supplier::MekonomenProLive => "mekonomen-pro-live"@,
    }
}

impl Supplier {
    /// Parses a request supplier label.
    pub fn parse(label: &str) -> (r: Option<Self>)
        ensures
            r == parse_supplier(label@),
    {
        let k = dash_key_chars(label);
        let n = k.as_slice();
        if is_lit(n, "mekonomen-pro") || is_lit(n, "mekonomen-pro-modeled") || is_lit(n, "modeled") {
            Some(Supplier::MekonomenProModeled)
        } else if is_lit(n, "mekonomen-pro-live") || is_lit(n, "live") {
            Some(Supplier::MekonomenProLive)
        } else {
            None
        }
    }

    /// Stable supplier label.
    pub fn as_str(self) -> (r: &'static str)
        ensures
            r@ == supplier_label(self),
    {
        match self {
            Supplier::MekonomenProModeled => "mekonomen-pro-modeled",
            Supplier::MekonomenProLive => "mekonomen-pro-live",
        }
    }

    /// Returns true for suppliers that need a live host transport.
    pub fn is_live(self) -> (r: bool)
        ensures
            r == (self == Supplier::MekonomenProLive),
    {
        match self {
            Supplier::MekonomenProLive => true,
            Supplier::MekonomenProModeled => false,
        }
    }
}

/// What a part line says: SKU, OEM number, description, quantity.
pub type PartLineView = (Seq<char>, Option<Seq<char>>, Seq<char>, u32);

/// One requested part line.
#[derive(Clone, Debug, PartialEq, Eq)]
pub struct PartLine {
    /// Supplier or catalog SKU.
    pub sku: String,
    /// Optional OEM reference number.
    pub oem: Option<String>,
    /// Human-facing part description.
    pub description: String,
    /// Requested quantity.
    pub qty: u32,
}

impl View for PartLine {
    type V = PartLineView;

    open spec fn view(&self) -> PartLineView {
        (
            self.sku@,
            match self.oem {
                Some(o) => Some(o@),
                None => None,
            },
            self.description@,
            self.qty,
        )
    }
}

impl Default for PartLine {
    fn default() -> (r: Self)
        ensures
            r@ == ("SIM-COIL-1"@, Some("A0001500180"@), "modeled ignition coil"@, 1u32),
    {
        PartLine::new("SIM-COIL-1", Some("A0001500180"), "modeled ignition coil", 1)
    }
}

impl PartLine {
    /// Builds a part line.
    pub fn new(sku: &str, oem: Option<&str>, description: &str, qty: u32) -> (r: Self)
        ensures
            r@ == (sku@, match oem {
                Some(o) => Some(o@),
                None => None,
            }, description@, qty),
    {
        PartLine {
            sku: sku.to_owned(),
            oem: match oem {
                Some(o) => Some(o.to_owned()),
                None => None,
            },
            description: description.to_owned(),
            qty,
        }
    }

    /// A copy of this line.
    pub fn duplicate(&self) -> (r: Self)
        ensures
            r@ == self@,
    {
        PartLine {
            sku: self.sku.clone(),
            oem: match &self.oem {
                Some(o) => Some(o.clone()),
                None => None,
            },
            description: self.description.clone(),
            qty: self.qty,
        }
    }
}

/// The views of a list of part lines.
pub open spec fn line_views(v: Seq<PartLine>) -> Seq<PartLineView> {
    v.map_values(|l: PartLine| l@)
}

/// Copies a list of part lines.
pub fn duplicate_lines(v: &[PartLine]) -> (r: Vec<PartLine>)
    ensures
        line_views(r@) == line_views(v@),
{
    let mut r: Vec<PartLine> = Vec::new();
    let mut i: usize = 0;
    while i < v.len()
        invariant
            i <= v@.len(),
            r@.len() == i,
            forall|k: int| 0 <= k < i ==> (#[trigger] r@[k])@ == v@[k]@,
        decreases v@.len() - i,
    {
        r.push(v[i].duplicate());
        i = i + 1;
    }
    assert(line_views(r@) =~= line_views(v@));
    r
}

/// Parts order status returned by a supplier.
#[derive(Clone, Debug, PartialEq, Eq)]
pub struct OrderStatus {
    /// Supplier order id.
    pub id: String,
    /// Supplier label.
    pub supplier: String,
    /// Whether the supplier accepted the order.
    pub accepted: bool,
    /// Whether the order can be reversed by the effect gate.
    pub reversible: bool,
    /// Number of requested lines.
    pub line_count: u32,
    /// Modeled ledger reference.
    pub ledger_ref: String,
}

/// What an order status says.
pub type OrderStatusView = (Seq<char>, Seq<char>, bool, bool, u32, Seq<char>);

impl View for OrderStatus {
    type V = OrderStatusView;

    open spec fn view(&self) -> OrderStatusView {
        (self.id@, self.supplier@, self.accepted, self.reversible, self.line_count, self.ledger_ref@)
    }
}

/// The status of an accepted, reversible order.
pub open spec fn accepted_status(id: Seq<char>, supplier: Supplier, line_count: u32) -> OrderStatusView {
    (id, supplier_label(supplier), true, true, line_count, "fixture-ledger/"@ + id)
}

impl Default for OrderStatus {
    fn default() -> (r: Self)
        ensures
            r@ == accepted_status("SIM-ORDER-1"@, Supplier::MekonomenProModeled, 1),
    {
        OrderStatus::accepted("SIM-ORDER-1", Supplier::MekonomenProModeled, 1)
    }
}

impl OrderStatus {
    /// Builds an accepted, reversible order status with ledger reference
    /// `fixture-ledger/{id}`.
    pub fn accepted(id: &str, supplier: Supplier, line_count: u32) -> (r: Self)
        ensures
            r@ == accepted_status(id@, supplier, line_count),
    {
        let mut ledger = chars_of("fixture-ledger/");
        push_str(&mut ledger, id);
        OrderStatus {
            ledger_ref: string_of(ledger.as_slice()),
            id: id.to_owned(),
            supplier: supplier.as_str().to_owned(),
            accepted: true,
            reversible: true,
            line_count,
        }
    }

    /// A copy of this status.
    pub fn duplicate(&self) -> (r: Self)
        ensures
            r@ == self@,
    {
        OrderStatus {
            id: self.id.clone(),
            supplier: self.supplier.clone(),
            accepted: self.accepted,
            reversible: self.reversible,
            line_count: self.line_count,
            ledger_ref: self.ledger_ref.clone(),
        }
    }
}

/// What is wrong with one order line, if anything: an SKU that is blank
/// after trimming, or a zero quantity.
pub open spec fn line_problem(l: PartLineView) -> Option<Seq<char>> {
    if trim(l.0).len() == 0 {
        Some("auto parts order line has empty SKU"@)
    } else if l.3 == 0 {
        Some("auto parts order line "@ + l.0 + " has zero quantity"@)
    } else {
        None
    }
}

/// The problem of the first faulty line, if any.
pub open spec fn first_line_problem(lines: Seq<PartLineView>) -> Option<Seq<char>>
    decreases lines.len(),
{
    if lines.len() == 0 {
        None
    } else {
        match line_problem(lines[0]) {
            Some(m) => Some(m),
            None => first_line_problem(lines.drop_first()),
        }
    }
}

/// Why an order is refused before it reaches a supplier, if it is.
pub open spec fn order_problem(lines: Seq<PartLineView>) -> Option<Seq<char>> {
    if lines.len() == 0 {
        Some("auto parts order requires at least one line"@)
    } else {
        first_line_problem(lines)
    }
}

/// A line list has no faulty line exactly when every line has an SKU that
/// is not blank after trimming and a quantity above zero; otherwise the
/// problem reported is that of the first faulty line, every line before it
/// being sound.
pub proof fn lemma_first_line_problem(lines: Seq<PartLineView>)
    ensures
        first_line_problem(lines) is None <==> forall|i: int|
            0 <= i < lines.len() ==> trim((#[trigger] lines[i]).0).len() > 0 && lines[i].3 > 0,
        first_line_problem(lines) is Some ==> exists|k: int| #![trigger lines[k]] {
            &&& 0 <= k < lines.len()
            &&& forall|i: int| 0 <= i < k ==> trim((#[trigger] lines[i]).0).len() > 0 && lines[i].3 > 0
            &&& if trim(lines[k].0).len() == 0 {
                first_line_problem(lines) == Some("auto parts order line has empty SKU"@)
            } else {
                &&& lines[k].3 == 0
                &&& first_line_problem(lines) == Some("auto parts order line "@ + lines[k].0 + " has zero quantity"@)
            }
        },
    decreases lines.len(),
{
    if lines.len() > 0 {
        let rest = lines.drop_first();
        lemma_first_line_problem(rest);
        assert forall|i: int| 0 <= i < rest.len() implies #[trigger] rest[i] == lines[i + 1] by {}
        if line_problem(lines[0]) is None {
            if first_line_problem(rest) is Some {
                let k = choose|k: int| #![trigger rest[k]] {
                    &&& 0 <= k < rest.len()
                    &&& forall|i: int| 0 <= i < k ==> trim((#[trigger] rest[i]).0).len() > 0 && rest[i].3 > 0
                    &&& if trim(rest[k].0).len() == 0 {
                        first_line_problem(rest) == Some("auto parts order line has empty SKU"@)
                    } else {
                        &&& rest[k].3 == 0
                        &&& first_line_problem(rest) == Some("auto parts order line "@ + rest[k].0 + " has zero quantity"@)
                    }
                };
                assert(lines[k + 1] == rest[k]);
                assert forall|i: int| 0 <= i < k + 1 implies trim((#[trigger] lines[i]).0).len() > 0 && lines[i].3 > 0 by {
                    if i > 0 {
                        assert(lines[i] == rest[i - 1]);
                    }
                }
            } else {
                assert forall|i: int| 0 <= i < lines.len() implies trim((#[trigger] lines[i]).0).len() > 0 && lines[i].3 > 0 by {
                    if i > 0 {
                        assert(lines[i] == rest[i - 1]);
                    }
                }
            }
        } else {
            assert(lines[0] == lines[0]);
        }
    }
}

/// An order is accepted only with at least one line, every line having an
/// SKU that is not blank after trimming and a quantity above zero; any
/// such order is accepted.
pub proof fn lemma_order_accepted_iff_lines_valid(lines: Seq<PartLineView>)
    ensures
        order_problem(lines) is None <==> lines.len() > 0 && forall|i: int|
            0 <= i < lines.len() ==> trim((#[trigger] lines[i]).0).len() > 0 && lines[i].3 > 0,
{
    lemma_first_line_problem(lines);
}

/// Checks the order lines: at least one, each with an SKU and a quantity.
pub fn validate_lines(lines: &[PartLine]) -> (r: Result<()>)
    ensures
        r is Ok <==> order_problem(line_views(lines@)) is None,
        r is Err ==> (r matches Err(Error::Eval(msg)) && Some(msg@) == order_problem(line_views(lines@))),
{
    let ghost ls = line_views(lines@);
    if lines.len() == 0 {
        return Err(Error::Eval("auto parts order requires at least one line".to_owned()));
    }
    let mut i: usize = 0;
    assert(ls.skip(0) =~= ls);
    while i < lines.len()
        invariant
            ls == line_views(lines@),
            i <= lines@.len(),
            first_line_problem(ls) == first_line_problem(ls.skip(i as int)),
        decreases lines@.len() - i,
    {
        let line = &lines[i];
        assert(ls.skip(i as int)[0] == line@);
        assert(ls.skip(i as int).drop_first() =~= ls.skip(i + 1));
        let sku = chars_of(line.sku.as_str());
        let trimmed = trim_chars(sku.as_slice());
        if trimmed.len() == 0 {
            return Err(Error::Eval("auto parts order line has empty SKU".to_owned()));
        }
        if line.qty == 0 {
            let mut text = chars_of("auto parts order line ");
            push_str(&mut text, line.sku.as_str());
            push_str(&mut text, " has zero quantity");
            return Err(Error::Eval(string_of(text.as_slice())));
        }
        i = i + 1;
    }
    assert(ls.skip(i as int).len() == 0);
    Ok(())
}

/// The order suffix of one line: `{sku}x{qty}`.
pub open spec fn line_suffix(l: PartLineView) -> Seq<char> {
    l.0 + seq!['x'] + decimal(l.3 as nat)
}

/// The stable order suffix: the line suffixes joined by `-`.
pub open spec fn order_suffix(lines: Seq<PartLineView>) -> Seq<char> {
    join(lines.map_values(|l: PartLineView| line_suffix(l)), "-"@)
}

/// The stable order suffix of a list of lines.
pub fn stable_order_suffix(lines: &[PartLine]) -> (r: String)
    ensures
        r@ == order_suffix(line_views(lines@)),
{
    let mut parts: Vec<Vec<char>> = Vec::new();
    let mut i: usize = 0;
    while i < lines.len()
        invariant
            i <= lines@.len(),
            parts@.len() == i,
            forall|k: int| 0 <= k < i ==> (#[trigger] parts@[k])@ == line_suffix(lines@[k]@),
        decreases lines@.len() - i,
    {
        let mut piece = chars_of(lines[i].sku.as_str());
        piece.push('x');
        let mut digits = decimal_chars(lines[i].qty as u64);
        piece.append(&mut digits);
        assert(piece@ =~= line_suffix(lines@[i as int]@));
        parts.push(piece);
        i = i + 1;
    }
    assert(char_views(parts@) =~= line_views(lines@).map_values(|l: PartLineView| line_suffix(l)));
    let joined = join_chars(parts.as_slice(), "-");
    string_of(joined.as_slice())
}

/// The capabilities a supplier order needs: the order capability, and the
/// network capability for a live supplier.
pub fn required_capabilities(supplier: Supplier) -> (r: Vec<CapabilityName>)
    ensures
        cap_views(r@) == (if supplier == Supplier::MekonomenProLive {
            seq!["auto/order"@, "net/http"@]
        } else {
            seq!["auto/order"@]
        }),
{
    let mut capabilities = vec![CapabilityName::new(AUTO_ORDER)];
    if supplier.is_live() {
        capabilities.push(CapabilityName::new(NET_HTTP_CAPABILITY));
        assert(cap_views(capabilities@) =~= seq!["auto/order"@, "net/http"@]);
    } else {
        assert(cap_views(capabilities@) =~= seq!["auto/order"@]);
    }
    capabilities
}

/// The site manifest a Mekonomen-style supplier order runs under.
pub fn mekonomen_order_manifest() -> (r: SiteManifest)
    ensures
        r.site@ == "mekonomen-pro"@,
        r.vehicle@ == "mekonomen-order"@,
        r.brand@ == "mekonomen"@,
        strs(r.lanes@) == seq!["parts"@, "service"@],
        strs(r.transports@) == seq!["modeled"@, "http-dir"@],
        strs(r.operations@) == seq!["order/place"@],
        r.makes@.len() == 0,
        r.ceiling@.len() == 0,
{
    let lanes = vec!["parts".to_owned(), "service".to_owned()];
    let transports = vec!["modeled".to_owned(), "http-dir".to_owned()];
    let operations = vec![ORDER_OPERATION.to_owned()];
    assert(strs(lanes@) =~= seq!["parts"@, "service"@]);
    assert(strs(transports@) =~= seq!["modeled"@, "http-dir"@]);
    assert(strs(operations@) =~= seq!["order/place"@]);
    SiteManifest::new("mekonomen-pro", "mekonomen-order", "mekonomen", lanes, transports, operations)
}

/// The refusal a live supplier answers with: this library carries no
/// endpoint, key, account or network transport.
pub open spec fn live_order_refusal() -> Seq<char> {
    "live Mekonomen Pro ordering requires a host-owned HttpDir; this public crate commits no endpoint, key, order account, or network transport"@
}

/// What the supplier answers once the effect gate lets an order through:
/// a live supplier refuses; the modeled one accepts order
/// `SIM-ORDER-{suffix}` for every line.
pub fn supplier_answer(supplier: Supplier, lines: &[PartLine]) -> (r: Result<OrderStatus>)
    ensures
        supplier == Supplier::MekonomenProLive ==> (r matches Err(Error::Eval(msg)) && msg@ == live_order_refusal()),
        supplier == Supplier::MekonomenProModeled ==> (r matches Ok(s) && s@ == accepted_status(
            "SIM-ORDER-"@ + order_suffix(line_views(lines@)),
            supplier,
            lines@.len() as u32,
        )),
{
    if supplier.is_live() {
        return Err(Error::Eval(
            "live Mekonomen Pro ordering requires a host-owned HttpDir; this public crate commits no endpoint, key, order account, or network transport".to_owned(),
        ));
    }
    let mut id = chars_of("SIM-ORDER-");
    let suffix = stable_order_suffix(lines);
    push_str(&mut id, suffix.as_str());
    let id = string_of(id.as_slice());
    #[verifier::truncate]
    let count = lines.len() as u32;
    Ok(OrderStatus::accepted(id.as_str(), supplier, count))
}

/// Order statuses recorded by modeled supplier orders, in order.
#[derive(Default)]
pub struct ModeledOrderLedger {
    records: Vec<OrderStatus>,
}

impl View for ModeledOrderLedger {
    type V = Seq<OrderStatusView>;

    closed spec fn view(&self) -> Seq<OrderStatusView> {
        self.records@.map_values(|s: OrderStatus| s@)
    }
}

impl ModeledOrderLedger {
    /// Builds an empty modeled order ledger.
    pub fn new() -> (r: Self)
        ensures
            r@ == Seq::<OrderStatusView>::empty(),
    {
        let r = ModeledOrderLedger { records: Vec::new() };
        assert(r@ =~= Seq::<OrderStatusView>::empty());
        r
    }

    /// Returns the recorded order statuses.
    pub fn records(&self) -> (r: Result<Vec<OrderStatus>>)
        ensures
            r matches Ok(v) && v@.map_values(|s: OrderStatus| s@) == self@,
    {
        let mut out: Vec<OrderStatus> = Vec::new();
        let mut i: usize = 0;
        while i < self.records.len()
            invariant
                i <= self.records@.len(),
                out@.len() == i,
                forall|k: int| 0 <= k < i ==> (#[trigger] out@[k])@ == self.records@[k]@,
            decreases self.records@.len() - i,
        {
            out.push(self.records[i].duplicate());
            i = i + 1;
        }
        assert(out@.map_values(|s: OrderStatus| s@) =~= self@);
        Ok(out)
    }

    /// Records one order status.
    pub fn push(&mut self, status: OrderStatus)
        ensures
            final(self)@ == old(self)@.push(status@),
    {
        self.records.push(status);
        assert(self@ =~= old(self)@.push(status@));
    }
}

} // verus!
