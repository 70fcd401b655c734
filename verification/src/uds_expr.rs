//! The expression form of UDS frames: what a decoded frame reads as, and
//! how such an expression is read back into a frame.

use vstd::prelude::*;

use crate::expr::{
    Expr, ExprView, SymView, Symbol, bool_field, bytes_field, dict_expr, entry_views, expr_views, find_field,
    key_view, list_expr, number_expr, number_of, number_value, optional_field, qualified_text, string_field,
    symbol_field,
};
use crate::frame::{
    DtcFrame, DtcFrameView, UdsFrame, UdsFrameView, decode_frame, encode_frame, spec_decode, spec_encode, did_name, dtc_code_text, dtc_system_name, obd_mode_name,
    spec_did_name, spec_dtc_code_text, spec_dtc_system_name, spec_obd_mode_name,
};
use crate::kernel::{CodecId, Error, Result};
use crate::numtext::decimal;
use crate::status::{DtcStatus, spec_status_from_byte, spec_status_to_byte};
use crate::text::{chars_of, push_str, str_eq, string_of};

verus! {

/// A `numbers/u64` literal.
pub open spec fn u64_view(n: int) -> ExprView {
    ExprView::Number((Some("numbers"@), "u64"@), decimal(n as nat))
}

/// An entry holding a qualified symbol.
pub open spec fn sym_entry(k: Seq<char>, ns: Seq<char>, name: Seq<char>) -> (ExprView, ExprView) {
    (key_view(k), ExprView::Sym((Some(ns), name)))
}

/// An entry holding a `numbers/u64` literal.
pub open spec fn num_entry(k: Seq<char>, n: int) -> (ExprView, ExprView) {
    (key_view(k), u64_view(n))
}

/// An entry holding a string.
pub open spec fn text_entry(k: Seq<char>, t: Seq<char>) -> (ExprView, ExprView) {
    (key_view(k), ExprView::Text(t))
}

/// An entry holding bytes.
pub open spec fn bytes_entry(k: Seq<char>, b: Seq<u8>) -> (ExprView, ExprView) {
    (key_view(k), ExprView::Bytes(b))
}

/// An entry holding a boolean.
pub open spec fn flag_entry(k: Seq<char>, b: bool) -> (ExprView, ExprView) {
    (key_view(k), ExprView::Bool(b))
}

/// The status map of a status byte: one flag per status bit.
pub open spec fn status_view(byte: u8) -> ExprView {
    let s = spec_status_from_byte(byte);
    ExprView::Dict(
        seq![
            flag_entry("test_failed"@, s.test_failed),
            flag_entry("test_failed_this_operation_cycle"@, s.test_failed_this_operation_cycle),
            flag_entry("pending"@, s.pending),
            flag_entry("confirmed"@, s.confirmed),
            flag_entry("test_not_completed_since_clear"@, s.test_not_completed_since_clear),
            flag_entry("test_failed_since_clear"@, s.test_failed_since_clear),
            flag_entry("test_not_completed_this_operation_cycle"@, s.test_not_completed_this_operation_cycle),
            flag_entry("warning_indicator"@, s.warning_indicator),
        ],
    )
}

/// Decodes a UDS DTC status byte into an expression map.
pub fn dtc_status_expr(byte: u8) -> (r: Expr)
    ensures
        r@ == status_view(byte),
{
    let status = DtcStatus::from_byte(byte);
    let entries = vec![
        bool_field("test_failed", status.test_failed),
        bool_field("test_failed_this_operation_cycle", status.test_failed_this_operation_cycle),
        bool_field("pending", status.pending),
        bool_field("confirmed", status.confirmed),
        bool_field("test_not_completed_since_clear", status.test_not_completed_since_clear),
        bool_field("test_failed_since_clear", status.test_failed_since_clear),
        bool_field("test_not_completed_this_operation_cycle", status.test_not_completed_this_operation_cycle),
        bool_field("warning_indicator", status.warning_indicator),
    ];
    let r = dict_expr(entries);
    assert(entry_views(entries@) =~= seq![
        flag_entry("test_failed"@, status.test_failed),
        flag_entry("test_failed_this_operation_cycle"@, status.test_failed_this_operation_cycle),
        flag_entry("pending"@, status.pending),
        flag_entry("confirmed"@, status.confirmed),
        flag_entry("test_not_completed_since_clear"@, status.test_not_completed_since_clear),
        flag_entry("test_failed_since_clear"@, status.test_failed_since_clear),
        flag_entry("test_not_completed_this_operation_cycle"@, status.test_not_completed_this_operation_cycle),
        flag_entry("warning_indicator"@, status.warning_indicator),
    ]);
    r
}

/// The expression of one DTC entry.
pub open spec fn dtc_view(d: DtcFrameView) -> ExprView {
    ExprView::Dict(
        seq![
            sym_entry("class"@, "auto"@, "Dtc"@),
            text_entry("system"@, spec_dtc_system_name(d.raw_code[0])),
            text_entry("code"@, spec_dtc_code_text(d.raw_code)),
            text_entry("description"@, "status-only diagnostic"@),
            bytes_entry("raw-code"@, d.raw_code),
            num_entry("status-byte"@, d.status as int),
            (key_view("status"@), status_view(d.status)),
        ],
    )
}

/// The expression a frame reads as.
pub open spec fn frame_view(f: UdsFrameView) -> ExprView {
    match f {
        UdsFrameView::ReadDataByIdentifierRequest { did } => ExprView::Dict(
            seq![
                sym_entry("kind"@, "uds"@, "read-did-request"@),
                num_entry("service"@, 0x22),
                num_entry("did"@, did as int),
                text_entry("name"@, spec_did_name(did)),
            ],
        ),
        UdsFrameView::ReadDataByIdentifierResponse { did, data } => ExprView::Dict(
            seq![
                sym_entry("kind"@, "uds"@, "read-did-response"@),
                num_entry("service"@, 0x62),
                num_entry("did"@, did as int),
                text_entry("name"@, spec_did_name(did)),
                bytes_entry("data"@, data),
            ],
        ),
        UdsFrameView::ObdModeRequest { mode, pid } => {
            let head = seq![
                sym_entry("kind"@, "obd"@, "mode-request"@),
                num_entry("mode"@, mode as int),
                text_entry("mode-name"@, spec_obd_mode_name(mode)),
            ];
            ExprView::Dict(
                match pid {
                    Some(p) => head.push(num_entry("pid"@, p as int)),
                    None => head,
                },
            )
        },
        UdsFrameView::ReadDtcRequest { subfunction, status_mask } => {
            let head = seq![
                sym_entry("kind"@, "uds"@, "read-dtc-request"@),
                num_entry("service"@, 0x19),
                num_entry("subfunction"@, subfunction as int),
            ];
            ExprView::Dict(
                match status_mask {
                    Some(m) => head.push(num_entry("status-mask"@, m as int)),
                    None => head,
                },
            )
        },
        UdsFrameView::ReadDtcResponse { subfunction, status_availability_mask, dtcs } => ExprView::Dict(
            seq![
                sym_entry("kind"@, "uds"@, "read-dtc-response"@),
                num_entry("service"@, 0x59),
                num_entry("subfunction"@, subfunction as int),
                num_entry("status-availability-mask"@, status_availability_mask as int),
                (key_view("dtcs"@), ExprView::List(dtcs.map_values(|d: DtcFrameView| dtc_view(d)))),
            ],
        ),
    }
}

fn num_field(name: &str, value: u64) -> (r: (Expr, Expr))
    ensures
        r.0@ == key_view(name@),
        r.1@ == u64_view(value as int),
{
    (crate::expr::key(name), number_expr("numbers", "u64", value))
}

fn dtc_frame_to_expr(frame: &DtcFrame) -> (r: Expr)
    ensures
        r@ == dtc_view(frame@),
{
    let code = dtc_code_text(frame.raw_code);
    let raw = vec![frame.raw_code[0], frame.raw_code[1], frame.raw_code[2]];
    assert(raw@ =~= frame.raw_code@);
    let entries = vec![
        symbol_field("class", "auto", "Dtc"),
        string_field("system", dtc_system_name(frame.raw_code)),
        string_field("code", code.as_str()),
        string_field("description", "status-only diagnostic"),
        bytes_field("raw-code", raw),
        num_field("status-byte", frame.status as u64),
        (crate::expr::key("status"), dtc_status_expr(frame.status)),
    ];
    let r = dict_expr(entries);
    assert(entry_views(entries@) =~= seq![
        sym_entry("class"@, "auto"@, "Dtc"@),
        text_entry("system"@, spec_dtc_system_name(frame.raw_code@[0])),
        text_entry("code"@, spec_dtc_code_text(frame.raw_code@)),
        text_entry("description"@, "status-only diagnostic"@),
        bytes_entry("raw-code"@, frame.raw_code@),
        num_entry("status-byte"@, frame.status as int),
        (key_view("status"@), status_view(frame.status)),
    ]);
    r
}

/// The expression of a frame.
pub fn frame_to_expr(frame: &UdsFrame) -> (r: Expr)
    ensures
        r@ == frame_view(frame@),
{
    match frame {
        UdsFrame::ReadDataByIdentifierRequest { did } => {
            let entries = vec![
                symbol_field("kind", "uds", "read-did-request"),
                num_field("service", 0x22),
                num_field("did", *did as u64),
                string_field("name", did_name(*did)),
            ];
            let r = dict_expr(entries);
            assert(entry_views(entries@) =~= seq![
                sym_entry("kind"@, "uds"@, "read-did-request"@),
                num_entry("service"@, 0x22),
                num_entry("did"@, *did as int),
                text_entry("name"@, spec_did_name(*did)),
            ]);
            r
        },
        UdsFrame::ReadDataByIdentifierResponse { did, data } => {
            let mut copy: Vec<u8> = Vec::new();
            let mut i: usize = 0;
            while i < data.len()
                invariant
                    i <= data@.len(),
                    copy@ == data@.subrange(0, i as int),
                decreases data@.len() - i,
            {
                copy.push(data[i]);
                i = i + 1;
                assert(copy@ =~= data@.subrange(0, i as int));
            }
            assert(data@.subrange(0, data@.len() as int) =~= data@);
            let entries = vec![
                symbol_field("kind", "uds", "read-did-response"),
                num_field("service", 0x62),
                num_field("did", *did as u64),
                string_field("name", did_name(*did)),
                bytes_field("data", copy),
            ];
            let r = dict_expr(entries);
            assert(entry_views(entries@) =~= seq![
                sym_entry("kind"@, "uds"@, "read-did-response"@),
                num_entry("service"@, 0x62),
                num_entry("did"@, *did as int),
                text_entry("name"@, spec_did_name(*did)),
                bytes_entry("data"@, data@),
            ]);
            r
        },
        UdsFrame::ObdModeRequest { mode, pid } => {
            let mut entries = vec![
                symbol_field("kind", "obd", "mode-request"),
                num_field("mode", *mode as u64),
                string_field("mode-name", obd_mode_name(*mode)),
            ];
            let ghost head = entry_views(entries@);
            assert(head =~= seq![
                sym_entry("kind"@, "obd"@, "mode-request"@),
                num_entry("mode"@, *mode as int),
                text_entry("mode-name"@, spec_obd_mode_name(*mode)),
            ]);
            if let Some(p) = pid {
                entries.push(num_field("pid", *p as u64));
                assert(entry_views(entries@) =~= head.push(num_entry("pid"@, *p as int)));
            }
            dict_expr(entries)
        },
        UdsFrame::ReadDtcRequest { subfunction, status_mask } => {
            let mut entries = vec![
                symbol_field("kind", "uds", "read-dtc-request"),
                num_field("service", 0x19),
                num_field("subfunction", *subfunction as u64),
            ];
            let ghost head = entry_views(entries@);
            assert(head =~= seq![
                sym_entry("kind"@, "uds"@, "read-dtc-request"@),
                num_entry("service"@, 0x19),
                num_entry("subfunction"@, *subfunction as int),
            ]);
            if let Some(m) = status_mask {
                entries.push(num_field("status-mask", *m as u64));
                assert(entry_views(entries@) =~= head.push(num_entry("status-mask"@, *m as int)));
            }
            dict_expr(entries)
        },
        UdsFrame::ReadDtcResponse { subfunction, status_availability_mask, dtcs } => {
            let mut items: Vec<Expr> = Vec::new();
            let mut i: usize = 0;
            while i < dtcs.len()
                invariant
                    i <= dtcs@.len(),
                    items@.len() == i,
                    forall|k: int| 0 <= k < i ==> (#[trigger] items@[k])@ == dtc_view(dtcs@[k]@),
                decreases dtcs@.len() - i,
            {
                items.push(dtc_frame_to_expr(&dtcs[i]));
                i = i + 1;
            }
            let ghost dv = dtcs@.map_values(|d: DtcFrame| d@);
            assert(expr_views(items@) =~= dv.map_values(|d: DtcFrameView| dtc_view(d)));
            let list = list_expr(items);
            let entries = vec![
                symbol_field("kind", "uds", "read-dtc-response"),
                num_field("service", 0x59),
                num_field("subfunction", *subfunction as u64),
                num_field("status-availability-mask", *status_availability_mask as u64),
                (crate::expr::key("dtcs"), list),
            ];
            let r = dict_expr(entries);
            assert(entry_views(entries@) =~= seq![
                sym_entry("kind"@, "uds"@, "read-dtc-response"@),
                num_entry("service"@, 0x59),
                num_entry("subfunction"@, *subfunction as int),
                num_entry("status-availability-mask"@, *status_availability_mask as int),
                (key_view("dtcs"@), ExprView::List(dv.map_values(|d: DtcFrameView| dtc_view(d)))),
            ]);
            r
        },
    }
}

/// Whether `e` is a codec error of `codec` with text `msg`.
pub open spec fn codec_fails(e: Error, codec: CodecId, msg: Seq<char>) -> bool {
    e matches Error::CodecError { codec: c, message: m } && c == codec && m@ == msg
}

/// The field `name`, or the error for its absence.
pub open spec fn need_field(es: Seq<(ExprView, ExprView)>, name: Seq<char>) -> core::result::Result<ExprView, Seq<char>> {
    match find_field(es, name) {
        Some(v) => Ok(v),
        None => Err("missing UDS field "@ + name),
    }
}

/// The unsigned number `v` spells, or the error for field `name`.
pub open spec fn u64_of(v: ExprView, name: Seq<char>) -> core::result::Result<int, Seq<char>> {
    match v {
        ExprView::Number(_, _) => match number_value(v) {
            Some(n) => Ok(n),
            None => Err(name + " field must be an unsigned integer"@),
        },
        _ => Err(name + " field must be a number"@),
    }
}

/// The unsigned number field `name` holds.
pub open spec fn need_u64(es: Seq<(ExprView, ExprView)>, name: Seq<char>) -> core::result::Result<int, Seq<char>> {
    match need_field(es, name) {
        Ok(v) => u64_of(v, name),
        Err(m) => Err(m),
    }
}

/// The byte field `name` holds.
pub open spec fn need_u8(es: Seq<(ExprView, ExprView)>, name: Seq<char>) -> core::result::Result<u8, Seq<char>> {
    match need_u64(es, name) {
        Ok(n) => if n <= 255 {
            Ok(n as u8)
        } else {
            Err(name + " field must fit in u8"@)
        },
        Err(m) => Err(m),
    }
}

/// The byte field `name` holds, if present.
pub open spec fn want_u8(es: Seq<(ExprView, ExprView)>, name: Seq<char>) -> core::result::Result<Option<u8>, Seq<char>> {
    match find_field(es, name) {
        None => Ok(None),
        Some(v) => match u64_of(v, name) {
            Ok(n) => if n <= 255 {
                Ok(Some(n as u8))
            } else {
                Err(name + " field must fit in u8"@)
            },
            Err(m) => Err(m),
        },
    }
}

/// The 16-bit field `name` holds.
pub open spec fn need_u16(es: Seq<(ExprView, ExprView)>, name: Seq<char>) -> core::result::Result<u16, Seq<char>> {
    match need_u64(es, name) {
        Ok(n) => if n <= 65535 {
            Ok(n as u16)
        } else {
            Err(name + " field must fit in u16"@)
        },
        Err(m) => Err(m),
    }
}

/// The bytes field `name` holds.
pub open spec fn need_bytes(es: Seq<(ExprView, ExprView)>, name: Seq<char>) -> core::result::Result<Seq<u8>, Seq<char>> {
    match need_field(es, name) {
        Ok(ExprView::Bytes(b)) => Ok(b),
        Ok(_) => Err(name + " field must be bytes"@),
        Err(m) => Err(m),
    }
}

/// The symbol field `name` holds.
pub open spec fn need_symbol(es: Seq<(ExprView, ExprView)>, name: Seq<char>) -> core::result::Result<SymView, Seq<char>> {
    match need_field(es, name) {
        Ok(ExprView::Sym(s)) => Ok(s),
        Ok(_) => Err(name + " field must be a symbol"@),
        Err(m) => Err(m),
    }
}

/// The flag field `name` holds, if it holds a boolean.
pub open spec fn flag_of(es: Seq<(ExprView, ExprView)>, name: Seq<char>) -> Option<bool> {
    match find_field(es, name) {
        Some(ExprView::Bool(b)) => Some(b),
        _ => None,
    }
}

/// The status byte a status map spells, if it spells one.
pub open spec fn status_byte_of(v: ExprView) -> Option<u8> {
    match v {
        ExprView::Dict(es) => {
            let f0 = flag_of(es, "test_failed"@);
            let f1 = flag_of(es, "test_failed_this_operation_cycle"@);
            let f2 = flag_of(es, "pending"@);
            let f3 = flag_of(es, "confirmed"@);
            let f4 = flag_of(es, "test_not_completed_since_clear"@);
            let f5 = flag_of(es, "test_failed_since_clear"@);
            let f6 = flag_of(es, "test_not_completed_this_operation_cycle"@);
            let f7 = flag_of(es, "warning_indicator"@);
            if f0 is Some && f1 is Some && f2 is Some && f3 is Some && f4 is Some && f5 is Some && f6 is Some
                && f7 is Some {
                Some(
                    spec_status_to_byte(
                        DtcStatus {
                            test_failed: f0->0,
                            test_failed_this_operation_cycle: f1->0,
                            pending: f2->0,
                            confirmed: f3->0,
                            test_not_completed_since_clear: f4->0,
                            test_failed_since_clear: f5->0,
                            test_not_completed_this_operation_cycle: f6->0,
                            warning_indicator: f7->0,
                        },
                    ) as u8,
                )
            } else {
                None
            }
        },
        _ => None,
    }
}

/// The DTC entry an expression spells.
pub open spec fn dtc_of(v: ExprView) -> core::result::Result<DtcFrameView, Seq<char>> {
    match v {
        ExprView::Dict(es) => match need_bytes(es, "raw-code"@) {
            Err(m) => Err(m),
            Ok(raw) => if raw.len() != 3 {
                Err("DTC raw-code field must contain exactly three bytes"@)
            } else {
                match find_field(es, "status"@) {
                    Some(s) => match status_byte_of(s) {
                        Some(b) => Ok(DtcFrameView { raw_code: raw, status: b }),
                        None => Err("status field must be a DTC status map"@),
                    },
                    None => match need_u8(es, "status-byte"@) {
                        Ok(b) => Ok(DtcFrameView { raw_code: raw, status: b }),
                        Err(m) => Err(m),
                    },
                }
            },
        },
        _ => Err("DTC entry must be a map"@),
    }
}

/// The DTC entries a list spells; the first faulty entry's error otherwise.
pub open spec fn dtcs_of(items: Seq<ExprView>) -> core::result::Result<Seq<DtcFrameView>, Seq<char>>
    decreases items.len(),
{
    if items.len() == 0 {
        Ok(Seq::empty())
    } else {
        match dtcs_of(items.drop_last()) {
            Err(m) => Err(m),
            Ok(ds) => match dtc_of(items.last()) {
                Ok(d) => Ok(ds.push(d)),
                Err(m) => Err(m),
            },
        }
    }
}

/// The DTC list field of a response.
pub open spec fn need_dtcs(es: Seq<(ExprView, ExprView)>) -> core::result::Result<Seq<DtcFrameView>, Seq<char>> {
    match need_field(es, "dtcs"@) {
        Ok(ExprView::List(items)) => dtcs_of(items),
        Ok(_) => Err("dtcs field must be a list"@),
        Err(m) => Err(m),
    }
}

/// The frame an expression spells, or the error text.
pub open spec fn frame_of(e: ExprView) -> core::result::Result<UdsFrameView, Seq<char>> {
    match e {
        ExprView::Dict(es) => match need_symbol(es, "kind"@) {
            Err(m) => Err(m),
            Ok(k) => {
                let t = qualified_text(k);
                if t == "uds/read-did-request"@ {
                    match need_u16(es, "did"@) {
                        Ok(did) => Ok(UdsFrameView::ReadDataByIdentifierRequest { did }),
                        Err(m) => Err(m),
                    }
                } else if t == "uds/read-did-response"@ {
                    match need_u16(es, "did"@) {
                        Err(m) => Err(m),
                        Ok(did) => match need_bytes(es, "data"@) {
                            Ok(data) => Ok(UdsFrameView::ReadDataByIdentifierResponse { did, data }),
                            Err(m) => Err(m),
                        },
                    }
                } else if t == "obd/mode-request"@ {
                    match need_u8(es, "mode"@) {
                        Err(m) => Err(m),
                        Ok(mode) => match want_u8(es, "pid"@) {
                            Ok(pid) => Ok(UdsFrameView::ObdModeRequest { mode, pid }),
                            Err(m) => Err(m),
                        },
                    }
                } else if t == "uds/read-dtc-request"@ {
                    match need_u8(es, "subfunction"@) {
                        Err(m) => Err(m),
                        Ok(subfunction) => match want_u8(es, "status-mask"@) {
                            Ok(status_mask) => Ok(UdsFrameView::ReadDtcRequest { subfunction, status_mask }),
                            Err(m) => Err(m),
                        },
                    }
                } else if t == "uds/read-dtc-response"@ {
                    match need_u8(es, "subfunction"@) {
                        Err(m) => Err(m),
                        Ok(subfunction) => match need_u8(es, "status-availability-mask"@) {
                            Err(m) => Err(m),
                            Ok(status_availability_mask) => match need_dtcs(es) {
                                Ok(dtcs) => Ok(
                                    UdsFrameView::ReadDtcResponse { subfunction, status_availability_mask, dtcs },
                                ),
                                Err(m) => Err(m),
                            },
                        },
                    }
                } else {
                    Err("unsupported UDS expression kind "@ + t)
                }
            },
        },
        _ => Err("UDS expression must be a map"@),
    }
}

fn fail_with(codec: CodecId, text: Vec<char>) -> (e: Error)
    ensures
        codec_fails(e, codec, text@),
{
    Error::CodecError { codec, message: string_of(text.as_slice()) }
}

fn field_error(codec: CodecId, name: &str, tail: &str) -> (e: Error)
    ensures
        codec_fails(e, codec, name@ + tail@),
{
    let mut text = chars_of(name);
    push_str(&mut text, tail);
    fail_with(codec, text)
}

fn need_field_of<'a>(entries: &'a [(Expr, Expr)], name: &str, codec: CodecId) -> (r: Result<&'a Expr>)
    ensures
        match need_field(entry_views(entries@), name@) {
            Ok(v) => r matches Ok(e) && e@ == v,
            Err(m) => r matches Err(e) && codec_fails(e, codec, m),
        },
{
    match optional_field(entries, name) {
        Some(e) => Ok(e),
        None => {
            let mut text = chars_of("missing UDS field ");
            push_str(&mut text, name);
            Err(fail_with(codec, text))
        },
    }
}

fn u64_of_expr(e: &Expr, codec: CodecId, name: &str) -> (r: Result<u64>)
    ensures
        match u64_of(e@, name@) {
            Ok(n) => r == Ok::<u64, Error>(n as u64),
            Err(m) => r matches Err(x) && codec_fails(x, codec, m),
        },
        u64_of(e@, name@) matches Ok(n) ==> 0 <= n <= u64::MAX,
{
    match e {
        Expr::Number(_) => match number_of(e) {
            Some(n) => Ok(n),
            None => Err(field_error(codec, name, " field must be an unsigned integer")),
        },
        _ => Err(field_error(codec, name, " field must be a number")),
    }
}

fn need_u64_of(entries: &[(Expr, Expr)], name: &str, codec: CodecId) -> (r: Result<u64>)
    ensures
        match need_u64(entry_views(entries@), name@) {
            Ok(n) => r == Ok::<u64, Error>(n as u64),
            Err(m) => r matches Err(x) && codec_fails(x, codec, m),
        },
        need_u64(entry_views(entries@), name@) matches Ok(n) ==> 0 <= n <= u64::MAX,
{
    match need_field_of(entries, name, codec) {
        Ok(e) => u64_of_expr(e, codec, name),
        Err(x) => Err(x),
    }
}

fn need_u8_of(entries: &[(Expr, Expr)], name: &str, codec: CodecId) -> (r: Result<u8>)
    ensures
        match need_u8(entry_views(entries@), name@) {
            Ok(n) => r == Ok::<u8, Error>(n),
            Err(m) => r matches Err(x) && codec_fails(x, codec, m),
        },
{
    match need_u64_of(entries, name, codec) {
        Ok(n) => if n <= 255 {
            Ok(n as u8)
        } else {
            Err(field_error(codec, name, " field must fit in u8"))
        },
        Err(x) => Err(x),
    }
}

fn want_u8_of(entries: &[(Expr, Expr)], name: &str, codec: CodecId) -> (r: Result<Option<u8>>)
    ensures
        match want_u8(entry_views(entries@), name@) {
            Ok(n) => r == Ok::<Option<u8>, Error>(n),
            Err(m) => r matches Err(x) && codec_fails(x, codec, m),
        },
{
    match optional_field(entries, name) {
        None => Ok(None),
        Some(e) => match u64_of_expr(e, codec, name) {
            Ok(n) => if n <= 255 {
                Ok(Some(n as u8))
            } else {
                Err(field_error(codec, name, " field must fit in u8"))
            },
            Err(x) => Err(x),
        },
    }
}

fn need_u16_of(entries: &[(Expr, Expr)], name: &str, codec: CodecId) -> (r: Result<u16>)
    ensures
        match need_u16(entry_views(entries@), name@) {
            Ok(n) => r == Ok::<u16, Error>(n),
            Err(m) => r matches Err(x) && codec_fails(x, codec, m),
        },
{
    match need_u64_of(entries, name, codec) {
        Ok(n) => if n <= 65535 {
            Ok(n as u16)
        } else {
            Err(field_error(codec, name, " field must fit in u16"))
        },
        Err(x) => Err(x),
    }
}

fn need_bytes_of(entries: &[(Expr, Expr)], name: &str, codec: CodecId) -> (r: Result<Vec<u8>>)
    ensures
        match need_bytes(entry_views(entries@), name@) {
            Ok(b) => r matches Ok(v) && v@ == b,
            Err(m) => r matches Err(x) && codec_fails(x, codec, m),
        },
{
    match need_field_of(entries, name, codec) {
        Ok(Expr::Bytes(b)) => {
            let mut copy: Vec<u8> = Vec::new();
            let mut i: usize = 0;
            while i < b.len()
                invariant
                    i <= b@.len(),
                    copy@ == b@.subrange(0, i as int),
                decreases b@.len() - i,
            {
                copy.push(b[i]);
                i = i + 1;
                assert(copy@ =~= b@.subrange(0, i as int));
            }
            assert(b@.subrange(0, b@.len() as int) =~= b@);
            Ok(copy)
        },
        Ok(_) => Err(field_error(codec, name, " field must be bytes")),
        Err(x) => Err(x),
    }
}

fn need_symbol_of(entries: &[(Expr, Expr)], name: &str, codec: CodecId) -> (r: Result<Symbol>)
    ensures
        match need_symbol(entry_views(entries@), name@) {
            Ok(s) => r matches Ok(v) && v@ == s,
            Err(m) => r matches Err(x) && codec_fails(x, codec, m),
        },
{
    match need_field_of(entries, name, codec) {
        Ok(Expr::Symbol(s)) => Ok(s.duplicate()),
        Ok(_) => Err(field_error(codec, name, " field must be a symbol")),
        Err(x) => Err(x),
    }
}

fn flag_of_entries(entries: &[(Expr, Expr)], name: &str) -> (r: Option<bool>)
    ensures
        r == flag_of(entry_views(entries@), name@),
{
    match optional_field(entries, name) {
        Some(Expr::Bool(b)) => Some(*b),
        _ => None,
    }
}

/// Reads a status map back into its byte.
pub fn status_byte_from_expr(e: &Expr) -> (r: Option<u8>)
    ensures
        r == status_byte_of(e@),
{
    match e {
        Expr::Dict(entries) => {
            proof {
                crate::expr::lemma_dict_view(*entries);
            }
            let es = entries.as_slice();
            let f0 = flag_of_entries(es, "test_failed");
            let f1 = flag_of_entries(es, "test_failed_this_operation_cycle");
            let f2 = flag_of_entries(es, "pending");
            let f3 = flag_of_entries(es, "confirmed");
            let f4 = flag_of_entries(es, "test_not_completed_since_clear");
            let f5 = flag_of_entries(es, "test_failed_since_clear");
            let f6 = flag_of_entries(es, "test_not_completed_this_operation_cycle");
            let f7 = flag_of_entries(es, "warning_indicator");
            match (f0, f1, f2, f3, f4, f5, f6, f7) {
                (Some(b0), Some(b1), Some(b2), Some(b3), Some(b4), Some(b5), Some(b6), Some(b7)) => {
                    let status = DtcStatus {
                        test_failed: b0,
                        test_failed_this_operation_cycle: b1,
                        pending: b2,
                        confirmed: b3,
                        test_not_completed_since_clear: b4,
                        test_failed_since_clear: b5,
                        test_not_completed_this_operation_cycle: b6,
                        warning_indicator: b7,
                    };
                    Some(status.to_byte())
                },
                _ => None,
            }
        },
        _ => None,
    }
}

fn dtc_frame_from_expr(codec: CodecId, e: &Expr) -> (r: Result<DtcFrame>)
    ensures
        match dtc_of(e@) {
            Ok(d) => r matches Ok(f) && f@ == d,
            Err(m) => r matches Err(x) && codec_fails(x, codec, m),
        },
{
    match e {
        Expr::Dict(entries) => {
            proof {
                crate::expr::lemma_dict_view(*entries);
            }
            let es = entries.as_slice();
            let raw = match need_bytes_of(es, "raw-code", codec) {
                Ok(b) => b,
                Err(x) => {
                    return Err(x);
                },
            };
            if raw.len() != 3 {
                return Err(fail_with(codec, chars_of("DTC raw-code field must contain exactly three bytes")));
            }
            let raw_code: [u8; 3] = [raw[0], raw[1], raw[2]];
            assert(raw_code@ =~= raw@);
            let status = match optional_field(es, "status") {
                Some(s) => match status_byte_from_expr(s) {
                    Some(b) => b,
                    None => {
                        return Err(fail_with(codec, chars_of("status field must be a DTC status map")));
                    },
                },
                None => match need_u8_of(es, "status-byte", codec) {
                    Ok(b) => b,
                    Err(x) => {
                        return Err(x);
                    },
                },
            };
            Ok(DtcFrame { raw_code, status })
        },
        _ => Err(fail_with(codec, chars_of("DTC entry must be a map"))),
    }
}

fn need_dtcs_of(entries: &[(Expr, Expr)], codec: CodecId) -> (r: Result<Vec<DtcFrame>>)
    ensures
        match need_dtcs(entry_views(entries@)) {
            Ok(ds) => r matches Ok(v) && v@.map_values(|d: DtcFrame| d@) == ds,
            Err(m) => r matches Err(x) && codec_fails(x, codec, m),
        },
{
    let items = match need_field_of(entries, "dtcs", codec) {
        Ok(Expr::List(items)) => items,
        Ok(_) => {
            return Err(fail_with(codec, chars_of("dtcs field must be a list")));
        },
        Err(x) => {
            return Err(x);
        },
    };
    proof {
        crate::expr::lemma_list_view(*items);
    }
    let ghost iv = expr_views(items@);
    let mut out: Vec<DtcFrame> = Vec::new();
    let mut i: usize = 0;
    assert(need_dtcs(entry_views(entries@)) == dtcs_of(iv));
    assert(iv.take(0) =~= Seq::<ExprView>::empty());
    assert(out@.map_values(|d: DtcFrame| d@) =~= Seq::<DtcFrameView>::empty());
    while i < items.len()
        invariant
            iv == expr_views(items@),
            need_dtcs(entry_views(entries@)) == dtcs_of(iv),
            i <= items@.len(),
            dtcs_of(iv.take(i as int)) == Ok::<Seq<DtcFrameView>, Seq<char>>(out@.map_values(|d: DtcFrame| d@)),
        decreases items@.len() - i,
    {
        proof {
            assert(iv.take(i + 1).drop_last() =~= iv.take(i as int));
            assert(iv.take(i + 1).last() == items@[i as int]@);
        }
        match dtc_frame_from_expr(codec, &items[i]) {
            Ok(d) => {
                let ghost before = out@;
                out.push(d);
                assert(out@.map_values(|d: DtcFrame| d@) =~= before.map_values(|d: DtcFrame| d@).push(d@));
            },
            Err(x) => {
                proof {
                    let t = iv.take(i + 1);
                    assert(iv[i as int] == items@[i as int]@);
                    assert(dtc_of(t.last()) is Err);
                    assert(dtcs_of(t) == Err::<Seq<DtcFrameView>, Seq<char>>(dtc_of(t.last())->Err_0));
                    lemma_dtcs_error_sticks(iv, i + 1);
                    assert(dtcs_of(iv) == Err::<Seq<DtcFrameView>, Seq<char>>(dtc_of(items@[i as int]@)->Err_0));
                }
                return Err(x);
            },
        }
        i = i + 1;
    }
    assert(iv.take(items@.len() as int) =~= iv);
    Ok(out)
}

/// Once a prefix of a DTC list fails, the whole list fails the same way.
pub proof fn lemma_dtcs_error_sticks(items: Seq<ExprView>, k: int)
    requires
        0 <= k <= items.len(),
        dtcs_of(items.take(k)) is Err,
    ensures
        dtcs_of(items) == dtcs_of(items.take(k)),
    decreases items.len(),
{
    if k == items.len() {
        assert(items.take(k) =~= items);
    } else {
        assert(items.drop_last().take(k) =~= items.take(k));
        lemma_dtcs_error_sticks(items.drop_last(), k);
    }
}

/// Reads a frame back from its expression.
pub fn expr_to_frame(codec: CodecId, expr: &Expr) -> (r: Result<UdsFrame>)
    ensures
        match frame_of(expr@) {
            Ok(f) => r matches Ok(x) && x@ == f,
            Err(m) => r matches Err(x) && codec_fails(x, codec, m),
        },
{
    let entries = match expr {
        Expr::Dict(entries) => entries,
        _ => {
            return Err(fail_with(codec, chars_of("UDS expression must be a map")));
        },
    };
    proof {
        crate::expr::lemma_dict_view(*entries);
    }
    let es = entries.as_slice();
    let kind = match need_symbol_of(es, "kind", codec) {
        Ok(s) => s,
        Err(x) => {
            return Err(x);
        },
    };
    let text = kind.as_qualified_str();
    let t = text.as_str();
    if str_eq(t, "uds/read-did-request") {
        match need_u16_of(es, "did", codec) {
            Ok(did) => Ok(UdsFrame::ReadDataByIdentifierRequest { did }),
            Err(x) => Err(x),
        }
    } else if str_eq(t, "uds/read-did-response") {
        let did = match need_u16_of(es, "did", codec) {
            Ok(d) => d,
            Err(x) => {
                return Err(x);
            },
        };
        match need_bytes_of(es, "data", codec) {
            Ok(data) => Ok(UdsFrame::ReadDataByIdentifierResponse { did, data }),
            Err(x) => Err(x),
        }
    } else if str_eq(t, "obd/mode-request") {
        let mode = match need_u8_of(es, "mode", codec) {
            Ok(m) => m,
            Err(x) => {
                return Err(x);
            },
        };
        match want_u8_of(es, "pid", codec) {
            Ok(pid) => Ok(UdsFrame::ObdModeRequest { mode, pid }),
            Err(x) => Err(x),
        }
    } else if str_eq(t, "uds/read-dtc-request") {
        let subfunction = match need_u8_of(es, "subfunction", codec) {
            Ok(s) => s,
            Err(x) => {
                return Err(x);
            },
        };
        match want_u8_of(es, "status-mask", codec) {
            Ok(status_mask) => Ok(UdsFrame::ReadDtcRequest { subfunction, status_mask }),
            Err(x) => Err(x),
        }
    } else if str_eq(t, "uds/read-dtc-response") {
        let subfunction = match need_u8_of(es, "subfunction", codec) {
            Ok(s) => s,
            Err(x) => {
                return Err(x);
            },
        };
        let status_availability_mask = match need_u8_of(es, "status-availability-mask", codec) {
            Ok(s) => s,
            Err(x) => {
                return Err(x);
            },
        };
        match need_dtcs_of(es, codec) {
            Ok(dtcs) => Ok(UdsFrame::ReadDtcResponse { subfunction, status_availability_mask, dtcs }),
            Err(x) => Err(x),
        }
    } else {
        let mut msg = chars_of("unsupported UDS expression kind ");
        push_str(&mut msg, t);
        Err(fail_with(codec, msg))
    }
}

/// No entry before index `k` is keyed `name`.
pub open spec fn absent_before(es: Seq<(ExprView, ExprView)>, name: Seq<char>, k: int) -> bool
    decreases k,
{
    if k <= 0 {
        true
    } else {
        absent_before(es, name, k - 1) && es[k - 1].0 != key_view(name)
    }
}

/// The first entry keyed `name` is the one `find_field` finds.
pub proof fn lemma_find_first(es: Seq<(ExprView, ExprView)>, name: Seq<char>, k: int)
    requires
        0 <= k < es.len(),
        es[k].0 == key_view(name),
        absent_before(es, name, k),
    ensures
        find_field(es, name) == Some(es[k].1),
    decreases k,
{
    if k > 0 {
        lemma_absent_before_all(es, name, k);
        assert(es[0].0 != key_view(name));
        let rest = es.drop_first();
        lemma_absent_before_shift(es, name, k);
        lemma_find_first(rest, name, k - 1);
    }
}

/// What `absent_before` says, for every index before `k`.
pub proof fn lemma_absent_before_all(es: Seq<(ExprView, ExprView)>, name: Seq<char>, k: int)
    requires
        absent_before(es, name, k),
    ensures
        forall|j: int| 0 <= j < k ==> (#[trigger] es[j]).0 != key_view(name),
    decreases k,
{
    if k > 0 {
        lemma_absent_before_all(es, name, k - 1);
    }
}

/// `absent_before` survives dropping the first entry.
pub proof fn lemma_absent_before_shift(es: Seq<(ExprView, ExprView)>, name: Seq<char>, k: int)
    requires
        0 < k <= es.len(),
        absent_before(es, name, k),
    ensures
        absent_before(es.drop_first(), name, k - 1),
    decreases k,
{
    if k > 1 {
        lemma_absent_before_shift(es, name, k - 1);
        assert(es.drop_first()[k - 2] == es[k - 1]);
    }
}

/// A name no entry is keyed by is not found.
pub proof fn lemma_find_absent(es: Seq<(ExprView, ExprView)>, name: Seq<char>)
    requires
        absent_before(es, name, es.len() as int),
    ensures
        find_field(es, name) is None,
    decreases es.len(),
{
    if es.len() > 0 {
        lemma_absent_before_all(es, name, es.len() as int);
        assert(es[0].0 != key_view(name));
        lemma_absent_before_shift(es, name, es.len() as int);
        lemma_find_absent(es.drop_first(), name);
    }
}

/// A status map reads back as its byte.
pub proof fn lemma_status_view_round_trip(byte: u8)
    ensures
        status_byte_of(status_view(byte)) == Some(byte),
{
    reveal_with_fuel(absent_before, 8);
    reveal_strlit("test_failed");
    reveal_strlit("test_failed_this_operation_cycle");
    reveal_strlit("pending");
    reveal_strlit("confirmed");
    reveal_strlit("test_not_completed_since_clear");
    reveal_strlit("test_failed_since_clear");
    reveal_strlit("test_not_completed_this_operation_cycle");
    reveal_strlit("warning_indicator");
    assert("test_failed"@.len() == 11);
    assert("test_failed_this_operation_cycle"@.len() == 32);
    assert("pending"@.len() == 7);
    assert("confirmed"@.len() == 9);
    assert("test_not_completed_since_clear"@.len() == 30);
    assert("test_failed_since_clear"@.len() == 23);
    assert("test_not_completed_this_operation_cycle"@.len() == 39);
    assert("warning_indicator"@.len() == 17);
    let s = spec_status_from_byte(byte);
    let es = seq![
        flag_entry("test_failed"@, s.test_failed),
        flag_entry("test_failed_this_operation_cycle"@, s.test_failed_this_operation_cycle),
        flag_entry("pending"@, s.pending),
        flag_entry("confirmed"@, s.confirmed),
        flag_entry("test_not_completed_since_clear"@, s.test_not_completed_since_clear),
        flag_entry("test_failed_since_clear"@, s.test_failed_since_clear),
        flag_entry("test_not_completed_this_operation_cycle"@, s.test_not_completed_this_operation_cycle),
        flag_entry("warning_indicator"@, s.warning_indicator),
    ];
    lemma_find_first(es, "test_failed"@, 0);
    lemma_find_first(es, "test_failed_this_operation_cycle"@, 1);
    lemma_find_first(es, "pending"@, 2);
    lemma_find_first(es, "confirmed"@, 3);
    lemma_find_first(es, "test_not_completed_since_clear"@, 4);
    lemma_find_first(es, "test_failed_since_clear"@, 5);
    lemma_find_first(es, "test_not_completed_this_operation_cycle"@, 6);
    lemma_find_first(es, "warning_indicator"@, 7);
    crate::status::lemma_status_byte_round_trip(byte);
    assert(status_view(byte) == ExprView::Dict(es));
}

/// A DTC entry reads back as itself.
pub proof fn lemma_dtc_view_round_trip(d: DtcFrameView)
    requires
        d.raw_code.len() == 3,
    ensures
        dtc_of(dtc_view(d)) == Ok::<DtcFrameView, Seq<char>>(d),
{
    reveal_with_fuel(absent_before, 8);
    reveal_strlit("class");
    reveal_strlit("system");
    reveal_strlit("code");
    reveal_strlit("description");
    reveal_strlit("raw-code");
    reveal_strlit("status-byte");
    reveal_strlit("status");
    assert("class"@.len() == 5);
    assert("system"@.len() == 6);
    assert("code"@.len() == 4);
    assert("description"@.len() == 11);
    assert("raw-code"@.len() == 8);
    assert("status-byte"@.len() == 11);
    assert("status"@.len() == 6);
    let es = seq![
        sym_entry("class"@, "auto"@, "Dtc"@),
        text_entry("system"@, spec_dtc_system_name(d.raw_code[0])),
        text_entry("code"@, spec_dtc_code_text(d.raw_code)),
        text_entry("description"@, "status-only diagnostic"@),
        bytes_entry("raw-code"@, d.raw_code),
        num_entry("status-byte"@, d.status as int),
        (key_view("status"@), status_view(d.status)),
    ];
    assert(dtc_view(d) == ExprView::Dict(es));
    lemma_find_first(es, "raw-code"@, 4);
    assert("status"@[1] != "system"@[1]);
    lemma_find_first(es, "status"@, 6);
    lemma_status_view_round_trip(d.status);
}

/// A list of DTC entries reads back as itself.
pub proof fn lemma_dtcs_view_round_trip(ds: Seq<DtcFrameView>)
    requires
        forall|i: int| 0 <= i < ds.len() ==> (#[trigger] ds[i]).raw_code.len() == 3,
    ensures
        dtcs_of(ds.map_values(|d: DtcFrameView| dtc_view(d))) == Ok::<Seq<DtcFrameView>, Seq<char>>(ds),
    decreases ds.len(),
{
    let items = ds.map_values(|d: DtcFrameView| dtc_view(d));
    if ds.len() > 0 {
        let front = ds.drop_last();
        assert(items.drop_last() =~= front.map_values(|d: DtcFrameView| dtc_view(d)));
        assert forall|i: int| 0 <= i < front.len() implies (#[trigger] front[i]).raw_code.len() == 3 by {
            assert(front[i] == ds[i]);
        }
        lemma_dtcs_view_round_trip(front);
        lemma_dtc_view_round_trip(ds.last());
        assert(front.push(ds.last()) =~= ds);
    } else {
        assert(ds =~= Seq::<DtcFrameView>::empty());
    }
}

/// A number written as a `numbers/u64` literal reads back as itself.
pub proof fn lemma_u64_view_round_trip(n: nat, name: Seq<char>)
    requires
        n <= u64::MAX,
    ensures
        u64_of(u64_view(n as int), name) == Ok::<int, Seq<char>>(n as int),
{
    crate::numtext::lemma_parse_decimal(n, u64::MAX as int);
}

/// Every well-formed frame reads back from its expression unchanged.
#[verifier::spinoff_prover]
#[verifier::rlimit(60)]
pub proof fn lemma_frame_expr_round_trip(f: UdsFrameView)
    requires
        crate::frame::frame_well_formed(f),
    ensures
        frame_of(frame_view(f)) == Ok::<UdsFrameView, Seq<char>>(f),
{
    reveal_with_fuel(absent_before, 6);
    reveal_strlit("kind");
    reveal_strlit("service");
    reveal_strlit("did");
    reveal_strlit("name");
    reveal_strlit("data");
    reveal_strlit("mode");
    reveal_strlit("mode-name");
    reveal_strlit("pid");
    reveal_strlit("subfunction");
    reveal_strlit("status-mask");
    reveal_strlit("status-availability-mask");
    reveal_strlit("dtcs");
    reveal_strlit("uds");
    reveal_strlit("obd");
    reveal_strlit("read-did-request");
    reveal_strlit("read-did-response");
    reveal_strlit("mode-request");
    reveal_strlit("read-dtc-request");
    reveal_strlit("read-dtc-response");
    reveal_strlit("uds/read-did-request");
    reveal_strlit("uds/read-did-response");
    reveal_strlit("obd/mode-request");
    reveal_strlit("uds/read-dtc-request");
    reveal_strlit("uds/read-dtc-response");
    let did_req = "uds/read-did-request"@;
    let did_resp = "uds/read-did-response"@;
    let obd = "obd/mode-request"@;
    let dtc_req = "uds/read-dtc-request"@;
    let dtc_resp = "uds/read-dtc-response"@;
    assert(did_req[10] != dtc_req[10]);
    assert(did_resp[10] != dtc_resp[10]);
    assert("data"@[0] != "kind"@[0]);
    assert("data"@[0] != "name"@[0]);
    assert("mode"@[0] != "kind"@[0]);
    assert("status-mask"@[0] != "subfunction"@[1]);
    assert("dtcs"@[0] != "kind"@[0]);
    assert("kind"@.len() == 4);
    assert("service"@.len() == 7);
    assert("did"@.len() == 3);
    assert("name"@.len() == 4);
    assert("data"@.len() == 4);
    assert("mode"@.len() == 4);
    assert("mode-name"@.len() == 9);
    assert("pid"@.len() == 3);
    assert("subfunction"@.len() == 11);
    assert("status-mask"@.len() == 11);
    assert("status-availability-mask"@.len() == 24);
    assert("dtcs"@.len() == 4);
    match f {
        UdsFrameView::ReadDataByIdentifierRequest { did } => {
            let es = seq![
                sym_entry("kind"@, "uds"@, "read-did-request"@),
                num_entry("service"@, 0x22),
                num_entry("did"@, did as int),
                text_entry("name"@, spec_did_name(did)),
            ];
            lemma_find_first(es, "kind"@, 0);
            assert(qualified_text((Some("uds"@), "read-did-request"@)) =~= did_req);
            lemma_find_first(es, "did"@, 2);
            lemma_u64_view_round_trip(did as nat, "did"@);
        },
        UdsFrameView::ReadDataByIdentifierResponse { did, data } => {
            let es = seq![
                sym_entry("kind"@, "uds"@, "read-did-response"@),
                num_entry("service"@, 0x62),
                num_entry("did"@, did as int),
                text_entry("name"@, spec_did_name(did)),
                bytes_entry("data"@, data),
            ];
            lemma_find_first(es, "kind"@, 0);
            assert(qualified_text((Some("uds"@), "read-did-response"@)) =~= did_resp);
            lemma_find_first(es, "did"@, 2);
            lemma_u64_view_round_trip(did as nat, "did"@);
            lemma_find_first(es, "data"@, 4);
        },
        UdsFrameView::ObdModeRequest { mode, pid } => {
            let head = seq![
                sym_entry("kind"@, "obd"@, "mode-request"@),
                num_entry("mode"@, mode as int),
                text_entry("mode-name"@, spec_obd_mode_name(mode)),
            ];
            assert(qualified_text((Some("obd"@), "mode-request"@)) =~= obd);
            lemma_u64_view_round_trip(mode as nat, "mode"@);
            match pid {
                Some(p) => {
                    let es = head.push(num_entry("pid"@, p as int));
                    lemma_find_first(es, "kind"@, 0);
                    lemma_find_first(es, "mode"@, 1);
                    lemma_find_first(es, "pid"@, 3);
                    lemma_u64_view_round_trip(p as nat, "pid"@);
                },
                None => {
                    lemma_find_first(head, "kind"@, 0);
                    lemma_find_first(head, "mode"@, 1);
                    lemma_find_absent(head, "pid"@);
                },
            }
        },
        UdsFrameView::ReadDtcRequest { subfunction, status_mask } => {
            let head = seq![
                sym_entry("kind"@, "uds"@, "read-dtc-request"@),
                num_entry("service"@, 0x19),
                num_entry("subfunction"@, subfunction as int),
            ];
            assert(qualified_text((Some("uds"@), "read-dtc-request"@)) =~= dtc_req);
            lemma_u64_view_round_trip(subfunction as nat, "subfunction"@);
            match status_mask {
                Some(m) => {
                    let es = head.push(num_entry("status-mask"@, m as int));
                    lemma_find_first(es, "kind"@, 0);
                    lemma_find_first(es, "subfunction"@, 2);
                    lemma_find_first(es, "status-mask"@, 3);
                    lemma_u64_view_round_trip(m as nat, "status-mask"@);
                },
                None => {
                    lemma_find_first(head, "kind"@, 0);
                    lemma_find_first(head, "subfunction"@, 2);
                    lemma_find_absent(head, "status-mask"@);
                },
            }
        },
        UdsFrameView::ReadDtcResponse { subfunction, status_availability_mask, dtcs } => {
            let items = dtcs.map_values(|d: DtcFrameView| dtc_view(d));
            let es = seq![
                sym_entry("kind"@, "uds"@, "read-dtc-response"@),
                num_entry("service"@, 0x59),
                num_entry("subfunction"@, subfunction as int),
                num_entry("status-availability-mask"@, status_availability_mask as int),
                (key_view("dtcs"@), ExprView::List(items)),
            ];
            lemma_find_first(es, "kind"@, 0);
            assert(qualified_text((Some("uds"@), "read-dtc-response"@)) =~= dtc_resp);
            lemma_find_first(es, "subfunction"@, 2);
            lemma_u64_view_round_trip(subfunction as nat, "subfunction"@);
            lemma_find_first(es, "status-availability-mask"@, 3);
            lemma_u64_view_round_trip(status_availability_mask as nat, "status-availability-mask"@);
            lemma_find_first(es, "dtcs"@, 4);
            lemma_dtcs_view_round_trip(dtcs);
        },
    }
}

/// The UDS/OBD-II codec: bytes to expressions and back.
#[derive(Clone, Copy, Debug, Default)]
pub struct UdsCodec;

impl UdsCodec {
    /// Decodes a frame's bytes into its expression.
    pub fn decode(&self, codec: CodecId, bytes: &[u8]) -> (r: Result<Expr>)
        ensures
            match spec_decode(bytes@) {
                Some(f) => r matches Ok(e) && e@ == frame_view(f),
                None => r matches Err(Error::CodecError { codec: c, message: m }) && c == codec
                    && m@ == crate::frame::decode_message(bytes@),
            },
    {
        match decode_frame(codec, bytes) {
            Ok(frame) => Ok(frame_to_expr(&frame)),
            Err(e) => Err(e),
        }
    }

    /// Encodes a frame expression into its bytes.
    pub fn encode(&self, codec: CodecId, expr: &Expr) -> (r: Result<Vec<u8>>)
        ensures
            match frame_of(expr@) {
                Ok(f) => r matches Ok(b) && b@ == spec_encode(f),
                Err(m) => r matches Err(x) && codec_fails(x, codec, m),
            },
    {
        match expr_to_frame(codec, expr) {
            Ok(frame) => Ok(encode_frame(&frame)),
            Err(e) => Err(e),
        }
    }
}

/// Bytes the codec decodes encode back to the same bytes: decoding gives
/// an expression that reads back as the decoded frame, whose encoding is
/// the input.
pub proof fn lemma_codec_round_trip(bytes: Seq<u8>)
    requires
        spec_decode(bytes) is Some,
    ensures
        frame_of(frame_view(spec_decode(bytes)->0)) == Ok::<UdsFrameView, Seq<char>>(spec_decode(bytes)->0),
        spec_encode(spec_decode(bytes)->0) == bytes,
{
    crate::frame::lemma_encode_decode(bytes);
    lemma_frame_expr_round_trip(spec_decode(bytes)->0);
}

} // verus!
