//! The loadable libraries of the automotive sites: each library's id, the
//! symbols it exports, and the class symbols of its citizens.

use vstd::prelude::*;

use crate::expr::{Expr, ExprView, SymView, Symbol, expr_views, list_expr, qualified_text};
use crate::text::{chars_of, string_of};

verus! {

/// One export a library declares.
#[derive(Debug)]
pub enum LibExport {
    /// A class of citizens.
    Class {
        /// Class symbol.
        symbol: Symbol,
    },
    /// A named value.
    Value {
        /// Value symbol.
        symbol: Symbol,
    },
    /// A site.
    Site {
        /// Site symbol.
        symbol: Symbol,
    },
    /// A callable.
    Function {
        /// Function symbol.
        symbol: Symbol,
    },
}

/// What an export declares: its kind and its symbol.
pub enum ExportView {
    /// A class.
    Class(SymView),
    /// A value.
    Value(SymView),
    /// A site.
    Site(SymView),
    /// A callable.
    Function(SymView),
}

impl View for LibExport {
    type V = ExportView;

    open spec fn view(&self) -> ExportView {
        match self {
            LibExport::Class { symbol } => ExportView::Class(symbol@),
            LibExport::Value { symbol } => ExportView::Value(symbol@),
            LibExport::Site { symbol } => ExportView::Site(symbol@),
            LibExport::Function { symbol } => ExportView::Function(symbol@),
        }
    }
}

/// The views of a list of exports.
pub open spec fn export_views(v: Seq<LibExport>) -> Seq<ExportView> {
    v.map_values(|e: LibExport| e@)
}

/// The views of a list of symbols.
pub open spec fn symbol_views(v: Seq<Symbol>) -> Seq<SymView> {
    v.map_values(|s: Symbol| s@)
}

/// Whether `i` is the first `/` of `t`.
pub open spec fn first_slash(t: Seq<char>, i: int) -> bool {
    &&& 0 <= i < t.len()
    &&& t[i] == '/'
    &&& forall|j: int| 0 <= j < i ==> t[j] != '/'
}

/// The symbol a text names: split at its first `/` into namespace and
/// name, or a plain symbol when it has none.
pub open spec fn symbol_of_text(t: Seq<char>) -> SymView {
    if exists|i: int| first_slash(t, i) {
        let i = choose|i: int| first_slash(t, i);
        (Some(t.subrange(0, i)), t.subrange(i + 1, t.len() as int))
    } else {
        (None, t)
    }
}

/// A text has at most one first `/`.
proof fn lemma_first_slash_unique(t: Seq<char>, i: int, k: int)
    requires
        first_slash(t, i),
        first_slash(t, k),
    ensures
        i == k,
{
}

/// Reads a symbol from its text.
pub fn symbol_from_text(text: &str) -> (r: Symbol)
    ensures
        r@ == symbol_of_text(text@),
{
    let cs = chars_of(text);
    let mut i: usize = 0;
    while i < cs.len()
        invariant
            cs@ == text@,
            i <= cs@.len(),
            forall|j: int| 0 <= j < i ==> cs@[j] != '/',
        decreases cs@.len() - i,
    {
        if cs[i] == '/' {
            assert(first_slash(text@, i as int));
            proof {
                let k = choose|k: int| first_slash(text@, k);
                lemma_first_slash_unique(text@, i as int, k);
            }
            let mut namespace: Vec<char> = Vec::new();
            let mut j: usize = 0;
            while j < i
                invariant
                    j <= i < cs@.len(),
                    namespace@ == cs@.subrange(0, j as int),
                decreases i - j,
            {
                namespace.push(cs[j]);
                j = j + 1;
                assert(namespace@ =~= cs@.subrange(0, j as int));
            }
            let mut name: Vec<char> = Vec::new();
            let mut k: usize = i + 1;
            while k < cs.len()
                invariant
                    i + 1 <= k <= cs@.len(),
                    name@ == cs@.subrange(i + 1, k as int),
                decreases cs@.len() - k,
            {
                name.push(cs[k]);
                k = k + 1;
                assert(name@ =~= cs@.subrange(i + 1, k as int));
            }
            let ns = string_of(namespace.as_slice());
            let nm = string_of(name.as_slice());
            return Symbol { namespace: Some(ns), name: nm };
        }
        i = i + 1;
    }
    assert(!exists|k: int| first_slash(text@, k));
    Symbol { namespace: None, name: text.to_owned() }
}

/// Writing out the symbol a text names gives the text back.
pub proof fn lemma_symbol_text_round_trip(t: Seq<char>)
    ensures
        qualified_text(symbol_of_text(t)) == t,
{
    if exists|i: int| first_slash(t, i) {
        let i = choose|i: int| first_slash(t, i);
        assert(t.subrange(0, i) + seq!['/'] + t.subrange(i + 1, t.len() as int) =~= t);
    }
}

/// Reads each text as a symbol.
fn symbols_from_texts(texts: &[&str]) -> (r: Vec<Symbol>)
    ensures
        symbol_views(r@) == texts@.map_values(|t: &str| symbol_of_text(t@)),
{
    let mut out: Vec<Symbol> = Vec::new();
    let mut i: usize = 0;
    while i < texts.len()
        invariant
            i <= texts@.len(),
            symbol_views(out@) == texts@.take(i as int).map_values(|t: &str| symbol_of_text(t@)),
        decreases texts@.len() - i,
    {
        let ghost before = out@;
        out.push(symbol_from_text(texts[i]));
        assert(symbol_views(out@) =~= symbol_views(before).push(symbol_of_text(texts@[i as int]@)));
        assert(texts@.take(i + 1) =~= texts@.take(i as int).push(texts@[i as int]));
        i = i + 1;
    }
    assert(texts@.take(texts@.len() as int) =~= texts@);
    out
}

/// The citizen classes of the core library.
pub open spec fn core_citizen_texts() -> Seq<Seq<char>> {
    seq![
        "auto/VehicleId"@,
        "auto/Dtc"@,
        "auto/DtcStatus"@,
        "auto/BrandCaps"@,
        "auto/AutoLane"@,
        "auto/EffectClass"@,
        "auto/OpCap"@,
        "auto/TransportSpec"@,
        "auto/SiteManifest"@,
    ]
}

/// The citizen classes of the work-order library.
pub open spec fn order_citizen_texts() -> Seq<Seq<char>> {
    seq![
        "auto/WorkOrderEvent"@,
        "auto/WorkOrderLedger"@,
        "auto/LedgerInvoiceEvidence"@,
        "auto/LedgerInvoicePosting"@,
        "auto/LedgerInvoiceExport"@,
        "auto/WorkOrder"@,
        "auto/ConformanceReport"@,
    ]
}

/// The citizen classes of the parts library.
pub open spec fn parts_citizen_texts() -> Seq<Seq<char>> {
    seq!["auto/PartLine"@, "auto/OrderStatus"@]
}

/// The citizen class symbols the core library exports.
pub fn auto_citizen_symbols() -> (r: Vec<Symbol>)
    ensures
        symbol_views(r@) == core_citizen_texts().map_values(|t: Seq<char>| symbol_of_text(t)),
{
    let texts = vec![
        "auto/VehicleId",
        "auto/Dtc",
        "auto/DtcStatus",
        "auto/BrandCaps",
        "auto/AutoLane",
        "auto/EffectClass",
        "auto/OpCap",
        "auto/TransportSpec",
        "auto/SiteManifest",
    ];
    let r = symbols_from_texts(texts.as_slice());
    assert(texts@.map_values(|t: &str| symbol_of_text(t@)) =~= core_citizen_texts().map_values(|t: Seq<char>| symbol_of_text(t)));
    r
}

/// The citizen class symbols the work-order library exports.
pub fn auto_order_citizen_symbols() -> (r: Vec<Symbol>)
    ensures
        symbol_views(r@) == order_citizen_texts().map_values(|t: Seq<char>| symbol_of_text(t)),
{
    let texts = vec![
        "auto/WorkOrderEvent",
        "auto/WorkOrderLedger",
        "auto/LedgerInvoiceEvidence",
        "auto/LedgerInvoicePosting",
        "auto/LedgerInvoiceExport",
        "auto/WorkOrder",
        "auto/ConformanceReport",
    ];
    let r = symbols_from_texts(texts.as_slice());
    assert(texts@.map_values(|t: &str| symbol_of_text(t@)) =~= order_citizen_texts().map_values(|t: Seq<char>| symbol_of_text(t)));
    r
}

/// The citizen class symbols the parts library exports.
pub fn auto_parts_citizen_symbols() -> (r: Vec<Symbol>)
    ensures
        symbol_views(r@) == parts_citizen_texts().map_values(|t: Seq<char>| symbol_of_text(t)),
{
    let texts = vec!["auto/PartLine", "auto/OrderStatus"];
    let r = symbols_from_texts(texts.as_slice());
    assert(texts@.map_values(|t: &str| symbol_of_text(t@)) =~= parts_citizen_texts().map_values(|t: Seq<char>| symbol_of_text(t)));
    r
}

/// Symbol for the exported automotive capability list.
pub fn auto_caps_symbol() -> (r: Symbol)
    ensures
        r@ == (Some("auto"@), "caps"@),
{
    Symbol::qualified("auto", "caps")
}

/// Symbol for the exported automotive lane list.
pub fn auto_lanes_symbol() -> (r: Symbol)
    ensures
        r@ == (Some("auto"@), "lanes"@),
{
    Symbol::qualified("auto", "lanes")
}

/// Symbol for the exported automotive manifest shape descriptor.
pub fn manifest_shape_symbol() -> (r: Symbol)
    ensures
        r@ == (Some("auto"@), "manifest-shape"@),
{
    Symbol::qualified("auto", "manifest-shape")
}

/// Symbol for the diagnostic site export.
pub fn auto_diag_site_symbol() -> (r: Symbol)
    ensures
        r@ == (Some("auto"@), "diag-site"@),
{
    Symbol::qualified("auto", "diag-site")
}

/// Symbol for the repair-information site export.
pub fn auto_info_site_symbol() -> (r: Symbol)
    ensures
        r@ == (Some("auto"@), "info-site"@),
{
    Symbol::qualified("auto", "info-site")
}

/// Symbol for the exported information source list.
pub fn auto_info_sources_symbol() -> (r: Symbol)
    ensures
        r@ == (Some("auto"@), "info-sources"@),
{
    Symbol::qualified("auto", "info-sources")
}

/// Symbol for the information request shape descriptor.
pub fn auto_info_shape_symbol() -> (r: Symbol)
    ensures
        r@ == (Some("auto"@), "info-shape"@),
{
    Symbol::qualified("auto", "info-shape")
}

/// Symbol for the modeled work-order callable.
pub fn auto_order_function_symbol() -> (r: Symbol)
    ensures
        r@ == (Some("auto"@), "work-order"@),
{
    Symbol::qualified("auto", "work-order")
}

/// Symbol for the work-order request shape descriptor.
pub fn auto_order_shape_symbol() -> (r: Symbol)
    ensures
        r@ == (Some("auto"@), "work-order-shape"@),
{
    Symbol::qualified("auto", "work-order-shape")
}

/// Symbol for the parts site export.
pub fn auto_parts_site_symbol() -> (r: Symbol)
    ensures
        r@ == (Some("auto"@), "parts-site"@),
{
    Symbol::qualified("auto", "parts-site")
}

/// Symbol for the exported parts catalog directory.
pub fn auto_parts_dir_symbol() -> (r: Symbol)
    ensures
        r@ == (Some("auto"@), "parts-dir"@),
{
    Symbol::qualified("auto", "parts-dir")
}

/// Symbol for the exported supplier list.
pub fn auto_parts_suppliers_symbol() -> (r: Symbol)
    ensures
        r@ == (Some("auto"@), "parts-suppliers"@),
{
    Symbol::qualified("auto", "parts-suppliers")
}

/// Symbol for the parts request shape descriptor.
pub fn auto_parts_shape_symbol() -> (r: Symbol)
    ensures
        r@ == (Some("auto"@), "parts-shape"@),
{
    Symbol::qualified("auto", "parts-shape")
}

/// Symbol for the vehicle identity site export.
pub fn auto_vehicle_site_symbol() -> (r: Symbol)
    ensures
        r@ == (Some("auto"@), "vehicle-identity"@),
{
    Symbol::qualified("auto", "vehicle-identity")
}

/// Symbol for the live bridge contract catalog.
pub fn auto_vehicle_contracts_symbol() -> (r: Symbol)
    ensures
        r@ == (Some("auto"@), "vehicle-bridge-contracts"@),
{
    Symbol::qualified("auto", "vehicle-bridge-contracts")
}

/// Symbol for the vehicle lookup shape descriptor.
pub fn vehicle_lookup_shape_symbol() -> (r: Symbol)
    ensures
        r@ == (Some("auto"@), "vehicle-lookup-shape"@),
{
    Symbol::qualified("auto", "vehicle-lookup-shape")
}

/// Symbol of the UDS codec.
pub fn uds_codec_symbol() -> (r: Symbol)
    ensures
        r@ == (Some("codec"@), "uds"@),
{
    Symbol::qualified("codec", "uds")
}

/// Each symbol as a class export.
fn class_exports(symbols: Vec<Symbol>) -> (r: Vec<LibExport>)
    ensures
        export_views(r@) == symbol_views(symbols@).map_values(|s: SymView| ExportView::Class(s)),
{
    let mut out: Vec<LibExport> = Vec::new();
    let mut i: usize = 0;
    let ghost want = symbol_views(symbols@).map_values(|s: SymView| ExportView::Class(s));
    while i < symbols.len()
        invariant
            i <= symbols@.len(),
            want == symbol_views(symbols@).map_values(|s: SymView| ExportView::Class(s)),
            export_views(out@) == want.take(i as int),
        decreases symbols@.len() - i,
    {
        let ghost before = out@;
        out.push(LibExport::Class { symbol: symbols[i].duplicate() });
        assert(export_views(out@) =~= export_views(before).push(ExportView::Class(symbols@[i as int]@)));
        assert(want.take(i + 1) =~= want.take(i as int).push(want[i as int]));
        i = i + 1;
    }
    assert(want.take(symbols@.len() as int) =~= want);
    out
}

/// The core library: citizen classes, then the capability list, the lane
/// list and the manifest shape.
#[derive(Clone, Copy, Debug, Default)]
pub struct AutoCoreLib;

impl AutoCoreLib {
    /// The library id.
    pub fn id(&self) -> (r: Symbol)
        ensures
            r@ == (Some("auto"@), "core"@),
    {
        Symbol::qualified("auto", "core")
    }

    /// The exports the library declares.
    pub fn exports(&self) -> (r: Vec<LibExport>)
        ensures
            export_views(r@) == core_citizen_texts().map_values(|t: Seq<char>| ExportView::Class(symbol_of_text(t)))
                + seq![
                ExportView::Value((Some("auto"@), "caps"@)),
                ExportView::Value((Some("auto"@), "lanes"@)),
                ExportView::Value((Some("auto"@), "manifest-shape"@)),
            ],
    {
        let symbols = auto_citizen_symbols();
        let mut out = class_exports(symbols);
        let ghost head = export_views(out@);
        assert(head =~= core_citizen_texts().map_values(|t: Seq<char>| ExportView::Class(symbol_of_text(t))));
        out.push(LibExport::Value { symbol: auto_caps_symbol() });
        out.push(LibExport::Value { symbol: auto_lanes_symbol() });
        out.push(LibExport::Value { symbol: manifest_shape_symbol() });
        assert(export_views(out@) =~= head + seq![
            ExportView::Value((Some("auto"@), "caps"@)),
            ExportView::Value((Some("auto"@), "lanes"@)),
            ExportView::Value((Some("auto"@), "manifest-shape"@)),
        ]);
        out
    }
}

/// The diagnostic library: the diagnostic site.
#[derive(Clone, Copy, Debug, Default)]
pub struct AutoDiagLib;

impl AutoDiagLib {
    /// The library id.
    pub fn id(&self) -> (r: Symbol)
        ensures
            r@ == (Some("auto"@), "diag"@),
    {
        Symbol::qualified("auto", "diag")
    }

    /// The exports the library declares.
    pub fn exports(&self) -> (r: Vec<LibExport>)
        ensures
            export_views(r@) == seq![ExportView::Site((Some("auto"@), "diag-site"@))],
    {
        let out = vec![LibExport::Site { symbol: auto_diag_site_symbol() }];
        assert(export_views(out@) =~= seq![ExportView::Site((Some("auto"@), "diag-site"@))]);
        out
    }
}

/// The repair-information library: the site, the source list and the
/// request shape.
#[derive(Clone, Copy, Debug, Default)]
pub struct AutoInfoLib;

impl AutoInfoLib {
    /// The library id.
    pub fn id(&self) -> (r: Symbol)
        ensures
            r@ == (Some("auto"@), "info"@),
    {
        Symbol::qualified("auto", "info")
    }

    /// The exports the library declares.
    pub fn exports(&self) -> (r: Vec<LibExport>)
        ensures
            export_views(r@) == seq![
                ExportView::Site((Some("auto"@), "info-site"@)),
                ExportView::Value((Some("auto"@), "info-sources"@)),
                ExportView::Value((Some("auto"@), "info-shape"@)),
            ],
    {
        let out = vec![
            LibExport::Site { symbol: auto_info_site_symbol() },
            LibExport::Value { symbol: auto_info_sources_symbol() },
            LibExport::Value { symbol: auto_info_shape_symbol() },
        ];
        assert(export_views(out@) =~= seq![
            ExportView::Site((Some("auto"@), "info-site"@)),
            ExportView::Value((Some("auto"@), "info-sources"@)),
            ExportView::Value((Some("auto"@), "info-shape"@)),
        ]);
        out
    }
}

/// The work-order library: citizen classes, the work-order callable and
/// its request shape.
#[derive(Clone, Copy, Debug, Default)]
pub struct AutoOrderLib;

impl AutoOrderLib {
    /// The library id.
    pub fn id(&self) -> (r: Symbol)
        ensures
            r@ == (Some("auto"@), "order"@),
    {
        Symbol::qualified("auto", "order")
    }

    /// The exports the library declares.
    pub fn exports(&self) -> (r: Vec<LibExport>)
        ensures
            export_views(r@) == order_citizen_texts().map_values(|t: Seq<char>| ExportView::Class(symbol_of_text(t)))
                + seq![
                ExportView::Function((Some("auto"@), "work-order"@)),
                ExportView::Value((Some("auto"@), "work-order-shape"@)),
            ],
    {
        let symbols = auto_order_citizen_symbols();
        let mut out = class_exports(symbols);
        let ghost head = export_views(out@);
        assert(head =~= order_citizen_texts().map_values(|t: Seq<char>| ExportView::Class(symbol_of_text(t))));
        out.push(LibExport::Function { symbol: auto_order_function_symbol() });
        out.push(LibExport::Value { symbol: auto_order_shape_symbol() });
        assert(export_views(out@) =~= head + seq![
            ExportView::Function((Some("auto"@), "work-order"@)),
            ExportView::Value((Some("auto"@), "work-order-shape"@)),
        ]);
        out
    }
}

/// The parts library: citizen classes, the site, the catalog directory,
/// the supplier list and the request shape.
#[derive(Clone, Copy, Debug, Default)]
pub struct AutoPartsLib;

impl AutoPartsLib {
    /// The library id.
    pub fn id(&self) -> (r: Symbol)
        ensures
            r@ == (Some("auto"@), "parts"@),
    {
        Symbol::qualified("auto", "parts")
    }

    /// The exports the library declares.
    pub fn exports(&self) -> (r: Vec<LibExport>)
        ensures
            export_views(r@) == parts_citizen_texts().map_values(|t: Seq<char>| ExportView::Class(symbol_of_text(t)))
                + seq![
                ExportView::Site((Some("auto"@), "parts-site"@)),
                ExportView::Value((Some("auto"@), "parts-dir"@)),
                ExportView::Value((Some("auto"@), "parts-suppliers"@)),
                ExportView::Value((Some("auto"@), "parts-shape"@)),
            ],
    {
        let symbols = auto_parts_citizen_symbols();
        let mut out = class_exports(symbols);
        let ghost head = export_views(out@);
        assert(head =~= parts_citizen_texts().map_values(|t: Seq<char>| ExportView::Class(symbol_of_text(t))));
        out.push(LibExport::Site { symbol: auto_parts_site_symbol() });
        out.push(LibExport::Value { symbol: auto_parts_dir_symbol() });
        out.push(LibExport::Value { symbol: auto_parts_suppliers_symbol() });
        out.push(LibExport::Value { symbol: auto_parts_shape_symbol() });
        assert(export_views(out@) =~= head + seq![
            ExportView::Site((Some("auto"@), "parts-site"@)),
            ExportView::Value((Some("auto"@), "parts-dir"@)),
            ExportView::Value((Some("auto"@), "parts-suppliers"@)),
            ExportView::Value((Some("auto"@), "parts-shape"@)),
        ]);
        out
    }
}

/// The vehicle-identity library: the site, the bridge contract catalog and
/// the lookup shape.
#[derive(Clone, Copy, Debug, Default)]
pub struct AutoVehicleLib;

impl AutoVehicleLib {
    /// The library id.
    pub fn id(&self) -> (r: Symbol)
        ensures
            r@ == (Some("auto"@), "vehicle"@),
    {
        Symbol::qualified("auto", "vehicle")
    }

    /// The exports the library declares.
    pub fn exports(&self) -> (r: Vec<LibExport>)
        ensures
            export_views(r@) == seq![
                ExportView::Site((Some("auto"@), "vehicle-identity"@)),
                ExportView::Value((Some("auto"@), "vehicle-bridge-contracts"@)),
                ExportView::Value((Some("auto"@), "vehicle-lookup-shape"@)),
            ],
    {
        let out = vec![
            LibExport::Site { symbol: auto_vehicle_site_symbol() },
            LibExport::Value { symbol: auto_vehicle_contracts_symbol() },
            LibExport::Value { symbol: vehicle_lookup_shape_symbol() },
        ];
        assert(export_views(out@) =~= seq![
            ExportView::Site((Some("auto"@), "vehicle-identity"@)),
            ExportView::Value((Some("auto"@), "vehicle-bridge-contracts"@)),
            ExportView::Value((Some("auto"@), "vehicle-lookup-shape"@)),
        ]);
        out
    }
}

/// A list of strings as an expression.
pub open spec fn text_list_view(v: Seq<Seq<char>>) -> ExprView {
    ExprView::List(v.map_values(|t: Seq<char>| ExprView::Text(t)))
}

/// Writes a list of strings as a list expression.
fn strings_expr(items: &[&str]) -> (r: Expr)
    ensures
        r@ == text_list_view(crate::text::str_views(items@)),
{
    let ghost want = crate::text::str_views(items@).map_values(|t: Seq<char>| ExprView::Text(t));
    let mut out: Vec<Expr> = Vec::new();
    let mut i: usize = 0;
    while i < items.len()
        invariant
            i <= items@.len(),
            want == crate::text::str_views(items@).map_values(|t: Seq<char>| ExprView::Text(t)),
            expr_views(out@) == want.take(i as int),
        decreases items@.len() - i,
    {
        let ghost before = out@;
        out.push(Expr::String(items[i].to_owned()));
        assert(expr_views(out@) =~= expr_views(before).push(ExprView::Text(items@[i as int]@)));
        assert(want.take(i + 1) =~= want.take(i as int).push(want[i as int]));
        i = i + 1;
    }
    assert(want.take(items@.len() as int) =~= want);
    list_expr(out)
}

/// The value the core library exports as its capability list.
pub fn auto_caps_value() -> (r: Expr)
    ensures
        r@ == text_list_view(crate::domain::spec_capability_texts()),
{
    let texts = crate::domain::auto_capability_texts();
    let r = strings_expr(texts.as_slice());
    assert(crate::text::str_views(texts@) =~= crate::domain::spec_capability_texts());
    r
}

/// The lanes the core library exports.
pub open spec fn lane_texts() -> Seq<Seq<char>> {
    seq!["diagnostics"@, "telemetry"@, "manifest"@, "service"@]
}

/// The value the core library exports as its lane list.
pub fn auto_lanes_value() -> (r: Expr)
    ensures
        r@ == text_list_view(lane_texts()),
{
    let texts = vec!["diagnostics", "telemetry", "manifest", "service"];
    let r = strings_expr(texts.as_slice());
    assert(crate::text::str_views(texts@) =~= lane_texts());
    r
}

/// The value the information library exports as its source list: every
/// source's label, in order.
pub fn auto_info_sources_value() -> (r: Expr)
    ensures
        r@ == text_list_view(
            seq![
                crate::info::InfoSource::WisModeled,
                crate::info::InfoSource::IstaModeled,
                crate::info::InfoSource::VidaModeled,
                crate::info::InfoSource::EsiTronicModeled,
                crate::info::InfoSource::HaynesProModeled,
                crate::info::InfoSource::ShopAuthored,
            ].map_values(|s: crate::info::InfoSource| crate::info::source_label(s)),
        ),
{
    let sources = crate::info::InfoSource::all();
    let mut texts: Vec<&'static str> = Vec::new();
    let mut i: usize = 0;
    while i < sources.len()
        invariant
            i <= sources@.len(),
            crate::text::str_views(texts@) == sources@.take(i as int).map_values(|s: crate::info::InfoSource| crate::info::source_label(s)),
        decreases sources@.len() - i,
    {
        let ghost before = texts@;
        texts.push(sources[i].as_str());
        assert(crate::text::str_views(texts@) =~= crate::text::str_views(before).push(crate::info::source_label(sources@[i as int])));
        assert(sources@.take(i + 1) =~= sources@.take(i as int).push(sources@[i as int]));
        i = i + 1;
    }
    assert(sources@.take(sources@.len() as int) =~= sources@);
    strings_expr(texts.as_slice())
}

/// The value the parts library exports as its supplier list.
pub fn auto_parts_suppliers_value() -> (r: Expr)
    ensures
        r@ == text_list_view(seq!["mekonomen-pro-modeled"@, "mekonomen-pro-live"@]),
{
    let texts = vec![
        crate::parts::Supplier::MekonomenProModeled.as_str(),
        crate::parts::Supplier::MekonomenProLive.as_str(),
    ];
    let r = strings_expr(texts.as_slice());
    assert(crate::text::str_views(texts@) =~= seq!["mekonomen-pro-modeled"@, "mekonomen-pro-live"@]);
    r
}

/// The manifest shape descriptor the core library exports.
pub fn manifest_shape_text() -> (r: &'static str)
    ensures
        r@ == "auto/SiteManifest v0 site vehicle brand lanes transports operations"@,
{
    "auto/SiteManifest v0 site vehicle brand lanes transports operations"
}

/// The request shape descriptor the information library exports.
pub fn auto_info_shape_text() -> (r: &'static str)
    ensures
        r@ == "auto/info request: vehicle namespace source dtc ecu symptom lane"@,
{
    "auto/info request: vehicle namespace source dtc ecu symptom lane"
}

/// The request shape descriptor the parts library exports.
pub fn auto_parts_shape_text() -> (r: &'static str)
    ensures
        r@ == "auto parts request: catalog/get path | order/place supplier lines; live supplier requires auto/order and net/http"@,
{
    "auto parts request: catalog/get path | order/place supplier lines; live supplier requires auto/order and net/http"
}

/// The request shape descriptor the work-order library exports.
pub fn auto_order_shape_text() -> (r: &'static str)
    ensures
        r@ == "auto/work-order: modeled MBTECH work order using diagnostic-read and order parent grants"@,
{
    "auto/work-order: modeled MBTECH work order using diagnostic-read and order parent grants"
}

/// The lookup shape descriptor the vehicle-identity library exports.
pub fn vehicle_lookup_shape_text() -> (r: &'static str)
    ensures
        r@ == "auto/VehicleLookupRequest op source market plate|vin; source in modeled haynespro biluppgifter.se; live requires net/http"@,
{
    "auto/VehicleLookupRequest op source market plate|vin; source in modeled haynespro biluppgifter.se; live requires net/http"
}

} // verus!
