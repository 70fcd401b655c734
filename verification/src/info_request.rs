//! Request expressions of the repair-information site: building an
//! `auto/info` request and reading a repair query back from one.

use vstd::prelude::*;

use crate::domain::{AutoLane, VehicleId};
use crate::expr::{
    Expr, ExprView, Symbol, dict_expr, entry_views, expr_views, key, key_view, string_field,
};
use crate::info::{InfoSource, RepairQuery, opt_view, parse_source, source_label};
use crate::kernel::{Error, Result};
use crate::request::{key_of, key_text, value_of, value_text};
use crate::text::{chars_of, lower_seq, normalize, normalize_str, push_str, str_eq, string_of, trim};
use crate::uds_expr::text_entry;

verus! {

/// The views of fields whose values are still expressions.
pub open spec fn expr_field_views(v: Seq<(String, Expr)>) -> Seq<(Seq<char>, ExprView)> {
    v.map_values(|p: (String, Expr)| (p.0@, p.1@))
}

/// The fields of a map, values left as expressions.
pub open spec fn info_entry_fields(es: Seq<(ExprView, ExprView)>) -> core::result::Result<Seq<(Seq<char>, ExprView)>, Seq<char>>
    decreases es.len(),
{
    if es.len() == 0 {
        Ok(Seq::empty())
    } else {
        match info_entry_fields(es.drop_last()) {
            Err(m) => Err(m),
            Ok(fs) => match key_text(es.last().0) {
                None => Err("auto/info request key must be a symbol or string"@),
                Some(k) => Ok(fs.push((k, es.last().1))),
            },
        }
    }
}

/// The fields of the first `n` key/value pairs, values left as expressions.
pub open spec fn info_pair_fields(args: Seq<ExprView>, n: nat) -> core::result::Result<Seq<(Seq<char>, ExprView)>, Seq<char>>
    decreases n,
{
    if n == 0 {
        Ok(Seq::empty())
    } else {
        match info_pair_fields(args, (n - 1) as nat) {
            Err(m) => Err(m),
            Ok(fs) => match key_text(args[2 * n - 2]) {
                None => Err("auto/info request key must be a symbol or string"@),
                Some(k) => Ok(fs.push((k, args[2 * n - 1]))),
            },
        }
    }
}

/// The fields of a request: a map's entries, or a list's head as `op`
/// followed by its key/value pairs.
pub open spec fn info_fields(e: ExprView) -> core::result::Result<Seq<(Seq<char>, ExprView)>, Seq<char>> {
    match e {
        ExprView::Dict(es) => info_entry_fields(es),
        ExprView::List(items) => info_list_fields(items),
        ExprView::Vector(items) => info_list_fields(items),
        _ => Err("auto/info request must be a map, list, or vector"@),
    }
}

/// The fields of a list request.
pub open spec fn info_list_fields(items: Seq<ExprView>) -> core::result::Result<Seq<(Seq<char>, ExprView)>, Seq<char>> {
    if items.len() == 0 {
        Err("empty auto/info request"@)
    } else {
        let tail = items.drop_first();
        if tail.len() % 2 != 0 {
            Err("auto/info request arguments must be key/value pairs"@)
        } else {
            match info_pair_fields(tail, (tail.len() / 2) as nat) {
                Ok(fs) => Ok(seq![("op"@, items[0])] + fs),
                Err(m) => Err(m),
            }
        }
    }
}

/// The value of the last field named `name`.
pub open spec fn lookup_expr(fs: Seq<(Seq<char>, ExprView)>, name: Seq<char>) -> Option<ExprView>
    decreases fs.len(),
{
    if fs.len() == 0 {
        None
    } else if fs.last().0 == name {
        Some(fs.last().1)
    } else {
        lookup_expr(fs.drop_last(), name)
    }
}

/// The text of field `name`, if present.
pub open spec fn text_field(fs: Seq<(Seq<char>, ExprView)>, name: Seq<char>) -> core::result::Result<Option<Seq<char>>, Seq<char>> {
    match lookup_expr(fs, name) {
        None => Ok(None),
        Some(v) => match value_text(v) {
            Some(t) => Ok(Some(t)),
            None => Err("auto/info request field must be string or symbol"@),
        },
    }
}

/// What a repair query says.
pub struct QueryView {
    /// Vehicle namespace.
    pub namespace: Seq<char>,
    /// Vehicle key.
    pub vehicle: Seq<char>,
    /// Source filter.
    pub source: Option<InfoSource>,
    /// DTC filter.
    pub dtc: Option<Seq<char>>,
    /// ECU filter.
    pub ecu: Option<Seq<char>>,
    /// Symptom filter.
    pub symptom: Option<Seq<char>>,
    /// Lane name.
    pub lane: Seq<char>,
}

/// The view of a query.
pub open spec fn query_view(q: RepairQuery) -> QueryView {
    QueryView {
        namespace: q.vehicle.namespace@,
        vehicle: q.vehicle.key@,
        source: q.source,
        dtc: opt_view(q.dtc),
        ecu: opt_view(q.ecu),
        symptom: opt_view(q.symptom),
        lane: q.lane.name@,
    }
}

/// The text or the default.
pub open spec fn or_default(t: Option<Seq<char>>, d: Seq<char>) -> Seq<char> {
    match t {
        Some(x) => x,
        None => d,
    }
}

/// The query the filters after the vehicle make, in the order they are
/// read: source, DTC, ECU, symptom, lane.
pub open spec fn info_filters(fs: Seq<(Seq<char>, ExprView)>, ns: Seq<char>, vk: Seq<char>) -> core::result::Result<QueryView, Seq<char>> {
    match text_field(fs, "source"@) {
        Err(m) => Err(m),
        Ok(src) => {
            let parsed = match src {
                None => Ok(None),
                Some(t) => match parse_source(t) {
                    Some(s) => Ok(Some(s)),
                    None => Err("unknown auto info source "@ + t),
                },
            };
            match parsed {
                Err(m) => Err(m),
                Ok(source) => match text_field(fs, "dtc"@) {
                    Err(m) => Err(m),
                    Ok(dtc) => match text_field(fs, "ecu"@) {
                        Err(m) => Err(m),
                        Ok(ecu) => match text_field(fs, "symptom"@) {
                            Err(m) => Err(m),
                            Ok(symptom) => match text_field(fs, "lane"@) {
                                Err(m) => Err(m),
                                Ok(lane) => Ok(
                                    QueryView { namespace: ns, vehicle: vk, source, dtc, ecu, symptom, lane: or_default(lane, "info"@) },
                                ),
                            },
                        },
                    },
                },
            }
        },
    }
}

/// The query a request expression spells, or the error text.
pub open spec fn parse_info(e: ExprView) -> core::result::Result<QueryView, Seq<char>> {
    match info_fields(e) {
        Err(m) => Err(m),
        Ok(fs) => match text_field(fs, "op"@) {
            Err(m) => Err(m),
            Ok(op) => if op matches Some(o) && normalize(o) != "auto/info"@ {
                Err("unsupported auto info op "@ + op->0)
            } else {
                match text_field(fs, "namespace"@) {
                    Err(m) => Err(m),
                    Ok(ns) => match text_field(fs, "vehicle"@) {
                        Err(m) => Err(m),
                        Ok(vk) => info_filters(fs, or_default(ns, "modeled-se"@), or_default(vk, "vehicle-alpha"@)),
                    },
                }
            },
        },
    }
}

fn info_error(text: &str) -> (e: Error)
    ensures
        e matches Error::Eval(m) && m@ == text@,
{
    Error::Eval(text.to_owned())
}

fn entry_fields_of(entries: &[(Expr, Expr)]) -> (r: Result<Vec<(String, Expr)>>)
    ensures
        match info_entry_fields(entry_views(entries@)) {
            Ok(fs) => r matches Ok(v) && expr_field_views(v@) == fs,
            Err(m) => r matches Err(Error::Eval(x)) && x@ == m,
        },
{
    let ghost es = entry_views(entries@);
    let mut out: Vec<(String, Expr)> = Vec::new();
    let mut i: usize = 0;
    assert(es.take(0) =~= Seq::<(ExprView, ExprView)>::empty());
    assert(expr_field_views(out@) =~= Seq::<(Seq<char>, ExprView)>::empty());
    while i < entries.len()
        invariant
            es == entry_views(entries@),
            i <= entries@.len(),
            info_entry_fields(es.take(i as int)) == Ok::<Seq<(Seq<char>, ExprView)>, Seq<char>>(expr_field_views(out@)),
        decreases entries@.len() - i,
    {
        let ghost t = es.take(i + 1);
        assert(t.drop_last() =~= es.take(i as int));
        assert(t.last() == (entries@[i as int].0@, entries@[i as int].1@));
        match key_of(&entries[i].0) {
            Some(k) => {
                let ghost before = out@;
                out.push((k, crate::diag::copy_expr(&entries[i].1)));
                assert(expr_field_views(out@) =~= expr_field_views(before).push((k@, entries@[i as int].1@)));
            },
            None => {
                proof {
                    lemma_info_entries_error_sticks(es, i + 1);
                }
                return Err(info_error("auto/info request key must be a symbol or string"));
            },
        }
        i = i + 1;
    }
    assert(es.take(entries@.len() as int) =~= es);
    Ok(out)
}

/// Once a prefix of the entries fails, the whole map fails the same way.
pub proof fn lemma_info_entries_error_sticks(es: Seq<(ExprView, ExprView)>, k: int)
    requires
        0 <= k <= es.len(),
        info_entry_fields(es.take(k)) is Err,
    ensures
        info_entry_fields(es) == info_entry_fields(es.take(k)),
    decreases es.len(),
{
    if k == es.len() {
        assert(es.take(k) =~= es);
    } else {
        assert(es.drop_last().take(k) =~= es.take(k));
        lemma_info_entries_error_sticks(es.drop_last(), k);
    }
}

/// Once the first pairs fail, every longer prefix fails the same way.
pub proof fn lemma_info_pairs_error_sticks(args: Seq<ExprView>, n: nat, m: nat)
    requires
        n <= m,
        info_pair_fields(args, n) is Err,
    ensures
        info_pair_fields(args, m) == info_pair_fields(args, n),
    decreases m - n,
{
    if n < m {
        lemma_info_pairs_error_sticks(args, n, (m - 1) as nat);
    }
}

fn list_fields_of(items: &Vec<Expr>) -> (r: Result<Vec<(String, Expr)>>)
    ensures
        match info_list_fields(expr_views(items@)) {
            Ok(fs) => r matches Ok(v) && expr_field_views(v@) == fs,
            Err(m) => r matches Err(Error::Eval(x)) && x@ == m,
        },
{
    let ghost iv = expr_views(items@);
    if items.len() == 0 {
        return Err(info_error("empty auto/info request"));
    }
    let ghost tail = iv.drop_first();
    if (items.len() - 1) % 2 != 0 {
        return Err(info_error("auto/info request arguments must be key/value pairs"));
    }
    let mut out: Vec<(String, Expr)> = vec![("op".to_owned(), crate::diag::copy_expr(&items[0]))];
    let ghost head = expr_field_views(out@);
    assert(head =~= seq![("op"@, iv[0])]);
    let mut j: usize = 1;
    let ghost mut n: nat = 0;
    assert(expr_field_views(out@) =~= head + Seq::<(Seq<char>, ExprView)>::empty());
    while j < items.len()
        invariant
            iv == expr_views(items@),
            tail == iv.drop_first(),
            head == seq![("op"@, iv[0])],
            items@.len() >= 1,
            (items@.len() - 1) % 2 == 0,
            j == 1 + 2 * n,
            j <= items@.len(),
            info_pair_fields(tail, n) matches Ok(fs) && expr_field_views(out@) == head + fs,
        decreases items@.len() - j,
    {
        let ghost fs = info_pair_fields(tail, n)->Ok_0;
        assert(tail[2 * n as int] == iv[1 + 2 * n as int]);
        assert(tail[2 * n as int + 1] == iv[2 + 2 * n as int]);
        assert(iv[2 + 2 * n as int] == items@[j + 1]@);
        match key_of(&items[j]) {
            Some(k) => {
                let ghost before = out@;
                let v = crate::diag::copy_expr(&items[j + 1]);
                assert(v@ == tail[2 * n as int + 1]);
                out.push((k, v));
                assert(expr_field_views(out@) =~= expr_field_views(before).push((k@, v@)));
                assert(expr_field_views(out@) =~= head + fs.push((k@, tail[2 * n as int + 1])));
            },
            None => {
                proof {
                    lemma_info_pairs_error_sticks(tail, n + 1, (tail.len() / 2) as nat);
                }
                return Err(info_error("auto/info request key must be a symbol or string"));
            },
        }
        j = j + 2;
        proof {
            n = n + 1;
        }
    }
    assert(n == tail.len() / 2);
    Ok(out)
}

fn lookup_expr_field<'a>(fields: &'a [(String, Expr)], name: &str) -> (r: Option<&'a Expr>)
    ensures
        match lookup_expr(expr_field_views(fields@), name@) {
            Some(v) => r matches Some(e) && e@ == v,
            None => r is None,
        },
{
    let ghost fs = expr_field_views(fields@);
    let mut i: usize = fields.len();
    assert(fs.take(fs.len() as int) =~= fs);
    while i > 0
        invariant
            fs == expr_field_views(fields@),
            i <= fields@.len(),
            lookup_expr(fs, name@) == lookup_expr(fs.take(i as int), name@),
        decreases i,
    {
        let ghost t = fs.take(i as int);
        assert(t.last() == (fields@[i - 1].0@, fields@[i - 1].1@));
        if str_eq(fields[i - 1].0.as_str(), name) {
            return Some(&fields[i - 1].1);
        }
        assert(t.drop_last() =~= fs.take(i - 1));
        i = i - 1;
    }
    None
}

fn text_field_of(fields: &[(String, Expr)], name: &str) -> (r: Result<Option<String>>)
    ensures
        match text_field(expr_field_views(fields@), name@) {
            Ok(t) => r matches Ok(o) && opt_view(o) == t,
            Err(m) => r matches Err(Error::Eval(x)) && x@ == m,
        },
{
    match lookup_expr_field(fields, name) {
        None => Ok(None),
        Some(e) => match value_of(e) {
            Some(t) => Ok(Some(t)),
            None => Err(info_error("auto/info request field must be string or symbol")),
        },
    }
}

/// Parses a repair query from a map, list, or vector expression.
pub fn parse_repair_query(expr: &Expr) -> (r: Result<RepairQuery>)
    ensures
        match parse_info(expr@) {
            Ok(q) => r matches Ok(x) && query_view(x) == q,
            Err(m) => r matches Err(Error::Eval(x)) && x@ == m,
        },
{
    let fields = match expr {
        Expr::Dict(entries) => {
            proof {
                crate::expr::lemma_dict_view(*entries);
            }
            entry_fields_of(entries.as_slice())
        },
        Expr::List(items) => {
            proof {
                crate::expr::lemma_list_view(*items);
            }
            list_fields_of(items)
        },
        Expr::Vector(items) => {
            proof {
                crate::expr::lemma_vector_view(*items);
            }
            list_fields_of(items)
        },
        _ => Err(info_error("auto/info request must be a map, list, or vector")),
    };
    let fields = match fields {
        Ok(f) => f,
        Err(e) => {
            return Err(e);
        },
    };
    let fs = fields.as_slice();
    match text_field_of(fs, "op") {
        Err(e) => {
            return Err(e);
        },
        Ok(Some(op)) => {
            let n = normalize_str(op.as_str());
            if !str_eq(n.as_str(), "auto/info") {
                let mut text = chars_of("unsupported auto info op ");
                push_str(&mut text, op.as_str());
                return Err(Error::Eval(string_of(text.as_slice())));
            }
        },
        Ok(None) => {},
    }
    let namespace = match text_field_of(fs, "namespace") {
        Err(e) => {
            return Err(e);
        },
        Ok(Some(t)) => t,
        Ok(None) => "modeled-se".to_owned(),
    };
    let vehicle_key = match text_field_of(fs, "vehicle") {
        Err(e) => {
            return Err(e);
        },
        Ok(Some(t)) => t,
        Ok(None) => "vehicle-alpha".to_owned(),
    };
    let mut query = RepairQuery::new(VehicleId::new(namespace.as_str(), vehicle_key.as_str()));
    match text_field_of(fs, "source") {
        Err(e) => {
            return Err(e);
        },
        Ok(Some(t)) => match InfoSource::parse(t.as_str()) {
            Some(s) => {
                query = query.with_source(s);
            },
            None => {
                let mut text = chars_of("unknown auto info source ");
                push_str(&mut text, t.as_str());
                return Err(Error::Eval(string_of(text.as_slice())));
            },
        },
        Ok(None) => {},
    }
    match text_field_of(fs, "dtc") {
        Err(e) => {
            return Err(e);
        },
        Ok(Some(t)) => {
            query = query.with_dtc_code(t.as_str());
        },
        Ok(None) => {},
    }
    match text_field_of(fs, "ecu") {
        Err(e) => {
            return Err(e);
        },
        Ok(Some(t)) => {
            query = query.with_ecu(t.as_str());
        },
        Ok(None) => {},
    }
    match text_field_of(fs, "symptom") {
        Err(e) => {
            return Err(e);
        },
        Ok(Some(t)) => {
            query = query.with_symptom(t.as_str());
        },
        Ok(None) => {},
    }
    match text_field_of(fs, "lane") {
        Err(e) => {
            return Err(e);
        },
        Ok(Some(t)) => {
            query = query.with_lane(AutoLane::new(t.as_str()));
        },
        Ok(None) => {},
    }
    Ok(query)
}

/// The entries of an `auto/info` request for the given filters.
pub open spec fn info_request_entries(
    namespace: Seq<char>,
    vehicle: Seq<char>,
    source: InfoSource,
    dtc: Option<Seq<char>>,
    ecu: Option<Seq<char>>,
    symptom: Option<Seq<char>>,
) -> Seq<(ExprView, ExprView)> {
    let head = seq![
        (key_view("op"@), ExprView::Sym((None, "auto/info"@))),
        text_entry("namespace"@, namespace),
        text_entry("vehicle"@, vehicle),
        text_entry("source"@, source_label(source)),
    ];
    let with_dtc = match dtc {
        Some(d) => head.push(text_entry("dtc"@, d)),
        None => head,
    };
    let with_ecu = match ecu {
        Some(e) => with_dtc.push(text_entry("ecu"@, e)),
        None => with_dtc,
    };
    match symptom {
        Some(s) => with_ecu.push(text_entry("symptom"@, s)),
        None => with_ecu,
    }
}

/// The view of an optional string slice.
pub open spec fn opt_str_view(o: Option<&str>) -> Option<Seq<char>> {
    match o {
        Some(s) => Some(s@),
        None => None,
    }
}

/// Builds an `auto/info` request expression.
pub fn auto_info_expr(vehicle: &VehicleId, source: InfoSource, dtc: Option<&str>, ecu: Option<&str>, symptom: Option<&str>) -> (r: Expr)
    ensures
        r@ == ExprView::Dict(
            info_request_entries(
                vehicle.namespace@,
                vehicle.key@,
                source,
                opt_str_view(dtc),
                opt_str_view(ecu),
                opt_str_view(symptom),
            ),
        ),
{
    let mut entries = vec![
        (key("op"), Expr::Symbol(Symbol::new("auto/info"))),
        string_field("namespace", vehicle.namespace.as_str()),
        string_field("vehicle", vehicle.key.as_str()),
        string_field("source", source.as_str()),
    ];
    let ghost head = seq![
        (key_view("op"@), ExprView::Sym((None, "auto/info"@))),
        text_entry("namespace"@, vehicle.namespace@),
        text_entry("vehicle"@, vehicle.key@),
        text_entry("source"@, source_label(source)),
    ];
    assert(entry_views(entries@) =~= head);
    let ghost with_dtc = match opt_str_view(dtc) {
        Some(d) => head.push(text_entry("dtc"@, d)),
        None => head,
    };
    if let Some(d) = dtc {
        entries.push(string_field("dtc", d));
    }
    assert(entry_views(entries@) =~= with_dtc);
    let ghost with_ecu = match opt_str_view(ecu) {
        Some(e) => with_dtc.push(text_entry("ecu"@, e)),
        None => with_dtc,
    };
    if let Some(e) = ecu {
        entries.push(string_field("ecu", e));
    }
    assert(entry_views(entries@) =~= with_ecu);
    if let Some(s) = symptom {
        entries.push(string_field("symptom", s));
    }
    assert(entry_views(entries@) =~= info_request_entries(
        vehicle.namespace@,
        vehicle.key@,
        source,
        opt_str_view(dtc),
        opt_str_view(ecu),
        opt_str_view(symptom),
    ));
    dict_expr(entries)
}

/// A label with no bracket or underscore keeps its characters.
proof fn lemma_label_chars_fixed(s: Seq<char>)
    requires
        forall|i: int| 0 <= i < s.len() ==> #[trigger] s[i] != '[' && s[i] != ']' && s[i] != '_',
    ensures
        crate::info::label_chars(s) == s,
    decreases s.len(),
{
    if s.len() > 0 {
        lemma_label_chars_fixed(s.drop_last());
        assert(s.drop_last().push(s.last()) =~= s);
    }
}

/// A lower-case label with no surrounding space, bracket or underscore is
/// its own label key.
proof fn lemma_label_key_fixed(s: Seq<char>)
    requires
        s.len() > 0,
        !crate::text::is_space(s[0]),
        !crate::text::is_space(s.last()),
        forall|i: int| 0 <= i < s.len() ==> !('A' <= #[trigger] s[i] && s[i] <= 'Z') && s[i] != '[' && s[i] != ']' && s[i] != '_',
    ensures
        crate::info::label_key(s) == s,
        normalize(s) == s,
{
    assert(crate::text::trim_start(s) == s);
    assert(crate::text::trim_end(s) == s);
    assert(trim(s) == s);
    assert(lower_seq(s) =~= s);
    lemma_label_chars_fixed(s);
}

/// A source's label reads back as that source.
pub proof fn lemma_source_label_parses(source: InfoSource)
    ensures
        parse_source(source_label(source)) == Some(source),
{
    reveal_strlit("wis");
    reveal_strlit("wis-modeled");
    reveal_strlit("ista");
    reveal_strlit("ista-modeled");
    reveal_strlit("vida");
    reveal_strlit("vida-modeled");
    reveal_strlit("esitronic");
    reveal_strlit("esi-tronic");
    reveal_strlit("esitronic-modeled");
    reveal_strlit("esi-tronic-modeled");
    reveal_strlit("haynespro");
    reveal_strlit("haynes-pro");
    reveal_strlit("haynespro-modeled");
    reveal_strlit("haynes-pro-modeled");
    reveal_strlit("shop");
    reveal_strlit("shop-authored");
    reveal_strlit("shop-modeled");
    let label = source_label(source);
    assert("vida-modeled"@[0] != "ista-modeled"@[0]);
    assert("haynespro-modeled"@[0] != "esitronic-modeled"@[0]);
    assert("shop-modeled"@[0] != "ista-modeled"@[0]);
    assert("shop-modeled"@[0] != "vida-modeled"@[0]);
    assert("haynes-pro-modeled"@[0] != "esi-tronic-modeled"@[0]);
    assert("haynespro"@[0] != "esitronic"@[0]);
    assert("haynes-pro"@[0] != "esi-tronic"@[0]);
    assert("ista"@[0] != "vida"@[0]);
    assert("shop"@[0] != "ista"@[0]);
    assert("shop"@[0] != "vida"@[0]);
    lemma_label_key_fixed(label);
}

/// Whether an entry is keyed by a plain symbol that does not start with a
/// colon.
pub open spec fn plain_keyed(e: (ExprView, ExprView)) -> bool {
    e.0 matches ExprView::Sym((None, k)) && k.len() > 0 && k[0] != ':'
}

/// The fields of a written request read back as its keys and values.
proof fn lemma_request_fields(es: Seq<(ExprView, ExprView)>)
    requires
        forall|i: int| 0 <= i < es.len() ==> plain_keyed(#[trigger] es[i]),
    ensures
        info_entry_fields(es) == Ok::<Seq<(Seq<char>, ExprView)>, Seq<char>>(
            es.map_values(|e: (ExprView, ExprView)| (e.0->Sym_0.1, e.1)),
        ),
    decreases es.len(),
{
    if es.len() > 0 {
        let k = es.last().0->Sym_0.1;
        assert(es.last().0 == ExprView::Sym((None, k)));
        assert(crate::text::strip_leading(k, ':') == k);
        assert forall|i: int| 0 <= i < es.drop_last().len() implies plain_keyed(#[trigger] es.drop_last()[i]) by {
            assert(es.drop_last()[i] == es[i]);
        }
        lemma_request_fields(es.drop_last());
        assert(es.drop_last().map_values(|e: (ExprView, ExprView)| (e.0->Sym_0.1, e.1)).push((k, es.last().1)) =~= es.map_values(
            |e: (ExprView, ExprView)| (e.0->Sym_0.1, e.1),
        ));
    } else {
        assert(es.map_values(|e: (ExprView, ExprView)| (e.0->Sym_0.1, e.1)) =~= Seq::<(Seq<char>, ExprView)>::empty());
    }
}

/// The query of a written request.
pub open spec fn written_query(
    namespace: Seq<char>,
    vehicle: Seq<char>,
    source: InfoSource,
    dtc: Option<Seq<char>>,
    ecu: Option<Seq<char>>,
    symptom: Option<Seq<char>>,
) -> QueryView {
    QueryView { namespace, vehicle, source: Some(source), dtc, ecu, symptom, lane: "info"@ }
}

/// An `auto/info` request written for a vehicle, a source and filters
/// reads back as the query for them, in the `info` lane.
pub proof fn lemma_info_request_round_trip(
    namespace: Seq<char>,
    vehicle: Seq<char>,
    source: InfoSource,
    dtc: Option<Seq<char>>,
    ecu: Option<Seq<char>>,
    symptom: Option<Seq<char>>,
)
    ensures
        parse_info(ExprView::Dict(info_request_entries(namespace, vehicle, source, dtc, ecu, symptom)))
            == Ok::<QueryView, Seq<char>>(written_query(namespace, vehicle, source, dtc, ecu, symptom)),
{
    reveal_strlit("op");
    reveal_strlit("namespace");
    reveal_strlit("vehicle");
    reveal_strlit("source");
    reveal_strlit("dtc");
    reveal_strlit("ecu");
    reveal_strlit("symptom");
    reveal_strlit("lane");
    reveal_strlit("auto/info");
    let es = info_request_entries(namespace, vehicle, source, dtc, ecu, symptom);
    assert forall|i: int| 0 <= i < es.len() implies plain_keyed(#[trigger] es[i]) by {}
    lemma_request_fields(es);
    let fs = es.map_values(|e: (ExprView, ExprView)| (e.0->Sym_0.1, e.1));
    lemma_source_label_parses(source);
    lemma_label_key_fixed("auto/info"@);
    assert("vehicle"@[0] != "symptom"@[0]);
    assert("dtc"@[0] != "ecu"@[0]);
    assert("vehicle"@ != "namespace"@);
    reveal_with_fuel(lookup_expr, 8);
    assert(lookup_expr(fs, "op"@) == Some(ExprView::Sym((None, "auto/info"@))));
    assert(lookup_expr(fs, "namespace"@) == Some(ExprView::Text(namespace)));
    assert(lookup_expr(fs, "vehicle"@) == Some(ExprView::Text(vehicle)));
    assert(lookup_expr(fs, "source"@) == Some(ExprView::Text(source_label(source))));
    assert(lookup_expr(fs, "lane"@) is None);
}

/// The control checks of the repair-information site: deadlines pass,
/// zero answer limits are refused.
pub fn info_checks() -> (r: crate::controls::ControlChecks)
    ensures
        r.label@ == "auto/info request"@,
        !r.refuse_deadline,
        r.refuse_zero_limit,
{
    crate::controls::ControlChecks { label: "auto/info request", refuse_deadline: false, refuse_zero_limit: true }
}

/// What laying out the best document of `catalog` for `query` gives.
pub open spec fn document_outcome(
    query: RepairQuery,
    catalog: Seq<crate::info::RepairProcedure>,
    r: Result<Vec<crate::repair::DocBlock>>,
) -> bool {
    &&& r is Ok <==> crate::repair::has_candidate(query, crate::repair::procedure_views(catalog))
    &&& r matches Ok(blocks) ==> exists|k: int|
        crate::repair::is_best_repair(query, crate::repair::procedure_views(catalog), k)
            && blocks@.map_values(|b: crate::repair::DocBlock| crate::repair::block_view(b))
            == crate::repair::document_view(catalog[k]@)
    &&& r is Err ==> (r matches Err(Error::Eval(msg)) && msg@ == "no modeled repair information matched query"@)
}

impl crate::repair::AutoInfoFabric {
    /// Answers an evaluation request: the controls are checked, the query
    /// parsed, then the best procedure of the catalog laid out.
    pub fn answer(&self, controls: &crate::controls::RequestControls, expr: &Expr) -> (r: Result<Vec<crate::repair::DocBlock>>)
        ensures
            crate::controls::control_problem("auto/info request"@, false, true, *controls) matches Some(m) ==> (r matches Err(
                Error::Eval(x),
            ) && x@ == m),
            crate::controls::control_problem("auto/info request"@, false, true, *controls) is None ==> match parse_info(expr@) {
                Err(m) => r matches Err(Error::Eval(x)) && x@ == m,
                Ok(q) => exists|query: RepairQuery| query_view(query) == q && document_outcome(query, self@, r),
            },
    {
        let checks = info_checks();
        match crate::controls::validate_controls(&checks, controls) {
            Ok(()) => {},
            Err(e) => {
                return Err(e);
            },
        }
        let query = match parse_repair_query(expr) {
            Ok(q) => q,
            Err(e) => {
                return Err(e);
            },
        };
        let r = crate::repair::repair_blocks_from_catalog(&query, self.catalog());
        assert(query_view(query) == query_view(query) && document_outcome(query, self@, r));
        r
    }
}

} // verus!
