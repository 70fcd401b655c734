use lib::expr::{Expr, Symbol};
use lib::kernel::{CodecId, Error};
use lib::status::decode_dtc_status;
use lib::uds_expr::UdsCodec;

fn codec() -> CodecId {
    CodecId(7)
}

fn decode(bytes: &[u8]) -> Expr {
    UdsCodec.decode(codec(), bytes).unwrap()
}

fn encoded(expr: &Expr) -> Vec<u8> {
    UdsCodec.encode(codec(), expr).unwrap()
}

fn map_value<'a>(expr: &'a Expr, name: &str) -> Option<&'a Expr> {
    let Expr::Dict(entries) = expr else {
        return None;
    };
    entries.iter().find_map(|(key, value)| match key {
        Expr::Symbol(symbol) if symbol.namespace.is_none() && symbol.name == name => Some(value),
        _ => None,
    })
}

fn symbol_value(expr: &Expr, name: &str) -> Option<Symbol> {
    match map_value(expr, name)? {
        Expr::Symbol(symbol) => Some(symbol.clone()),
        _ => None,
    }
}

fn string_value<'a>(expr: &'a Expr, name: &str) -> Option<&'a str> {
    match map_value(expr, name)? {
        Expr::String(value) => Some(value.as_str()),
        _ => None,
    }
}

fn bytes_value<'a>(expr: &'a Expr, name: &str) -> Option<&'a [u8]> {
    match map_value(expr, name)? {
        Expr::Bytes(value) => Some(value.as_slice()),
        _ => None,
    }
}

fn number_value(expr: &Expr, name: &str) -> Option<u64> {
    match map_value(expr, name)? {
        Expr::Number(value) => value.canonical.parse().ok(),
        _ => None,
    }
}

fn bool_value(expr: &Expr, name: &str) -> Option<bool> {
    match map_value(expr, name)? {
        Expr::Bool(value) => Some(*value),
        _ => None,
    }
}

fn first_dtc(expr: &Expr) -> &Expr {
    match map_value(expr, "dtcs").expect("dtcs field") {
        Expr::List(items) => items.first().expect("first dtc"),
        other => panic!("expected dtcs list, got {other:?}"),
    }
}

#[test]
fn read_did_request_round_trips() {
    let expr = decode(&[0x22, 0xF1, 0x90]);

    assert_eq!(
        symbol_value(&expr, "kind"),
        Some(Symbol::qualified("uds", "read-did-request"))
    );
    assert_eq!(string_value(&expr, "name"), Some("vin"));
    assert_eq!(encoded(&expr), vec![0x22, 0xF1, 0x90]);
}

#[test]
fn read_did_response_round_trips_with_bytes() {
    let frame = [0x62, 0xF1, 0x90, b'S', b'I', b'M'];
    let expr = decode(&frame);

    assert_eq!(bytes_value(&expr, "data"), Some(&b"SIM"[..]));
    assert_eq!(encoded(&expr), frame);
}

#[test]
fn obd_mode_request_round_trips() {
    let expr = decode(&[0x01, 0x0C]);

    assert_eq!(
        symbol_value(&expr, "kind"),
        Some(Symbol::qualified("obd", "mode-request"))
    );
    assert_eq!(string_value(&expr, "mode-name"), Some("current-data"));
    assert_eq!(encoded(&expr), vec![0x01, 0x0C]);
}

#[test]
fn dtc_response_decodes_status_without_fault_text() {
    let expr = decode(&[0x59, 0x02, 0xFF, 0x03, 0x01, 0x00, 0x89]);
    let dtc = first_dtc(&expr);

    assert_eq!(string_value(dtc, "code"), Some("P030100"));
    assert_eq!(
        string_value(dtc, "description"),
        Some("status-only diagnostic")
    );
    assert_eq!(number_value(dtc, "status-byte"), Some(0x89));
    let status = map_value(dtc, "status").expect("status field");
    assert_eq!(bool_value(status, "test_failed"), Some(true));
    assert_eq!(bool_value(status, "confirmed"), Some(true));
    assert_eq!(bool_value(status, "warning_indicator"), Some(true));
    assert_eq!(
        encoded(&expr),
        vec![0x59, 0x02, 0xFF, 0x03, 0x01, 0x00, 0x89]
    );
}

#[test]
fn status_byte_round_trips_through_core_status() {
    let status = decode_dtc_status(0xCA);

    assert!(!status.test_failed);
    assert!(status.test_failed_this_operation_cycle);
    assert!(!status.pending);
    assert!(status.confirmed);
    assert!(status.warning_indicator);
    assert_eq!(status.to_byte(), 0xCA);
}

#[test]
fn rejects_unknown_service() {
    let err = UdsCodec.decode(codec(), &[0xAA]).unwrap_err();

    match err {
        Error::CodecError { codec: id, message } => {
            assert_eq!(id, codec());
            assert!(message.contains("unsupported UDS/OBD-II service"), "{message}");
            assert_eq!(message, "unsupported UDS/OBD-II service 0xAA");
        }
        other => panic!("expected a codec error, got {other:?}"),
    }
}

#[test]
fn every_status_byte_round_trips() {
    for byte in 0..=255u8 {
        assert_eq!(decode_dtc_status(byte).to_byte(), byte);
    }
}

#[test]
fn decoded_frames_encode_back_to_their_bytes() {
    let frames: [&[u8]; 5] = [
        &[0x22, 0xF1, 0x90],
        &[0x62, 0xF1, 0x90, b'S', b'I', b'M'],
        &[0x01, 0x0C],
        &[0x19, 0x02, 0xFF],
        &[0x59, 0x02, 0xFF, 0x03, 0x01, 0x00, 0x89, 0x01, 0x02, 0x03, 0x08],
    ];
    for bytes in frames {
        let expr = decode(bytes);
        assert_eq!(encoded(&expr), bytes.to_vec());
    }
}

#[test]
fn encode_rejects_a_map_without_kind() {
    let expr = Expr::Dict(vec![]);
    assert!(matches!(
        UdsCodec.encode(codec(), &expr),
        Err(Error::CodecError { .. })
    ));
}

#[test]
fn decode_rejects_empty_input() {
    assert!(matches!(
        UdsCodec.decode(codec(), &[]),
        Err(Error::CodecError { .. })
    ));
}

#[test]
fn dtc_status_field_reads_back_as_itself() {
    let status = decode_dtc_status(0x89);
    let field = lib::citizen::dtc_status_field_expr(&status);
    assert_eq!(lib::citizen::decode_dtc_status_field(&field).unwrap(), status);
    assert!(bool_value(&field, "confirmed").unwrap());
    assert!(!bool_value(&field, "pending").unwrap());
}

#[test]
fn dtc_status_field_rejects_a_missing_flag() {
    let expr = Expr::Dict(vec![]);
    match lib::citizen::decode_dtc_status_field(&expr) {
        Err(Error::Eval(message)) => assert_eq!(message, "missing DTC status field test_failed"),
        other => panic!("unexpected {:?}", other),
    }
}

#[test]
fn decode_errors_name_what_is_wrong() {
    let cases: [(&[u8], &str); 8] = [
        (&[], "empty UDS frame"),
        (&[0x22, 0xF1], "read-DID request must be exactly three bytes"),
        (&[0x62, 0xF1], "read-DID response must include a two-byte DID"),
        (&[0x19], "read-DTC request must be service, subfunction, and optional status mask"),
        (&[0x59, 0x02], "read-DTC response must include subfunction and availability mask"),
        (&[0x59, 0x02, 0xFF, 0x01], "read-DTC response DTC payload must be four-byte entries"),
        (&[0x01, 0x0C, 0x00], "OBD-II mode request supports at most one PID byte"),
        (&[0x0B], "unsupported UDS/OBD-II service 0x0B"),
    ];
    for (bytes, expected) in cases {
        match UdsCodec.decode(codec(), bytes) {
            Err(Error::CodecError { message, .. }) => assert_eq!(message, expected),
            other => panic!("expected a codec error for {bytes:?}, got {other:?}"),
        }
    }
}
