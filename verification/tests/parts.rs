use lib::catalog::{CatalogValue, catalog_part, modeled_epc_dir};
use lib::citizen::{FieldProblem, decode_order_status, decode_part_lines};
use lib::expr::{Expr, Symbol};
use lib::kernel::Error;
use lib::libs::{
    AutoPartsLib, LibExport, auto_parts_citizen_symbols, auto_parts_dir_symbol, auto_parts_shape_symbol,
    auto_parts_site_symbol, auto_parts_suppliers_symbol,
};
use lib::parts::{
    ModeledOrderLedger, ORDER_OPERATION, OrderStatus, PartLine, PartsCatalog, Supplier, mekonomen_order_manifest,
    required_capabilities, stable_order_suffix, supplier_answer, validate_lines,
};
use lib::parts_request::{PartsRequest, auto_order_expr, parse_parts_request, parts_catalog_get_expr};
use lib::parts_site::{AutoPartsFabric, PartsAction};

fn path(items: &[&str]) -> Vec<String> {
    items.iter().map(|item| item.to_string()).collect()
}

fn export_symbol(export: &LibExport) -> String {
    match export {
        LibExport::Class { symbol }
        | LibExport::Value { symbol }
        | LibExport::Site { symbol }
        | LibExport::Function { symbol } => symbol.as_qualified_str(),
    }
}

#[test]
fn parts_citizens_round_trip() {
    let line = PartLine::new("SIM-COIL-1", Some("A0001500180"), "modeled coil", 1);
    let decoded = decode_part_lines(&Expr::List(vec![line.to_expr()])).unwrap();
    assert_eq!(decoded, vec![line]);

    let status = OrderStatus::accepted("SIM-ORDER-1", Supplier::MekonomenProModeled, 1);
    let decoded = decode_order_status(&status.to_expr()).unwrap();
    assert_eq!(decoded, status);
}

#[test]
fn order_status_with_unknown_supplier_does_not_read_back() {
    let mut status = OrderStatus::accepted("SIM-ORDER-1", Supplier::MekonomenProModeled, 1);
    status.supplier = "someone-else".to_owned();
    let err = decode_order_status(&status.to_expr()).unwrap_err();
    assert_eq!(err.field, "order_status");
    assert!(matches!(err.problem, FieldProblem::UnknownSupplier(label) if label == "someone-else"));
}

#[test]
fn epc_catalog_behaves_as_dir_table() {
    let dir = modeled_epc_dir();

    assert!(dir.keys().contains(&"engine".to_owned()));
    assert!(dir.is_dir("engine"));

    let engine = dir.opendir("engine").unwrap().expect("engine directory");
    let ignition = engine.opendir("ignition").unwrap().expect("ignition directory");
    let coil = ignition.get("coil-1").expect("coil part");
    assert!(format!("{coil:?}").contains("SIM-COIL-1"));
    assert_eq!(ignition.len(), 2);

    let by_path = catalog_part(PartsCatalog::EpcModeled, &path(&["engine", "ignition", "coil-1"])).unwrap();
    match by_path {
        CatalogValue::Part(part) => assert_eq!(part, coil),
        other => panic!("expected a part, got {other:?}"),
    }
}

#[test]
fn aftermarket_catalog_has_modeled_supplier_part() {
    let part = catalog_part(
        PartsCatalog::AftermarketModeled,
        &path(&["engine", "ignition", "coil-1"]),
    )
    .unwrap();

    assert!(format!("{part:?}").contains("MEK-SIM-COIL-1"));
}

#[test]
fn catalog_refuses_writes_and_unknown_paths() {
    let dir = modeled_epc_dir();
    assert!(matches!(dir.refuse_write(), Error::Eval(message) if message.contains("immutable")));
    assert!(matches!(
        catalog_part(PartsCatalog::EpcModeled, &path(&["engine", "nope", "coil-1"])),
        Err(_)
    ));
}

#[test]
fn modeled_supplier_accepts_with_a_stable_order_id() {
    let lines = vec![
        PartLine::new("MEK-SIM-COIL-1", Some("A0001500180"), "modeled coil", 1),
        PartLine::new("SIM-PLUG-4", None, "modeled plug", 4),
    ];
    validate_lines(&lines).unwrap();
    assert_eq!(stable_order_suffix(&lines), "MEK-SIM-COIL-1x1-SIM-PLUG-4x4");

    let status = supplier_answer(Supplier::MekonomenProModeled, &lines).unwrap();
    assert!(status.accepted);
    assert!(status.reversible);
    assert_eq!(status.supplier, "mekonomen-pro-modeled");
    assert_eq!(status.id, "SIM-ORDER-MEK-SIM-COIL-1x1-SIM-PLUG-4x4");
    assert_eq!(status.ledger_ref, "fixture-ledger/SIM-ORDER-MEK-SIM-COIL-1x1-SIM-PLUG-4x4");
    assert_eq!(status.line_count, 2);

    let mut ledger = ModeledOrderLedger::new();
    ledger.push(status.clone());
    assert_eq!(ledger.records().unwrap(), vec![status]);
}

#[test]
fn live_supplier_needs_network_and_refuses_without_transport() {
    let required = required_capabilities(Supplier::MekonomenProLive)
        .iter()
        .map(|c| c.as_str().to_owned())
        .collect::<Vec<_>>();
    assert_eq!(required, ["auto/order", "net/http"]);
    assert!(matches!(
        supplier_answer(Supplier::MekonomenProLive, &[PartLine::default()]),
        Err(Error::Eval(message)) if message.contains("host-owned HttpDir")
    ));
}

#[test]
fn order_lines_are_validated() {
    assert!(matches!(
        validate_lines(&[]),
        Err(Error::Eval(message)) if message == "auto parts order requires at least one line"
    ));
    assert!(matches!(
        validate_lines(&[PartLine::new("  ", None, "blank", 1)]),
        Err(Error::Eval(message)) if message == "auto parts order line has empty SKU"
    ));
    assert!(matches!(
        validate_lines(&[PartLine::new("SIM-1", None, "none", 0)]),
        Err(Error::Eval(message)) if message == "auto parts order line SIM-1 has zero quantity"
    ));
}

#[test]
fn order_operation_is_declared_reversible() {
    let manifest = mekonomen_order_manifest();
    assert_eq!(manifest.operations, [ORDER_OPERATION]);
    assert!(manifest.lanes.contains(&"parts".to_owned()));
    let required = required_capabilities(Supplier::MekonomenProModeled);
    assert_eq!(required.len(), 1);
    assert_eq!(required[0].as_str(), "auto/order");
}

#[test]
fn parts_lib_exports_site_dir_shape_and_citizens() {
    let exports = AutoPartsLib.exports().iter().map(export_symbol).collect::<Vec<_>>();
    assert!(exports.contains(&"auto/parts-site".to_owned()));
    assert!(exports.contains(&"auto/parts-dir".to_owned()));
    assert!(exports.contains(&"auto/parts-shape".to_owned()));
    assert!(exports.contains(&auto_parts_suppliers_symbol().as_qualified_str()));
    assert_eq!(auto_parts_site_symbol(), Symbol::qualified("auto", "parts-site"));
    assert_eq!(auto_parts_dir_symbol(), Symbol::qualified("auto", "parts-dir"));
    assert_eq!(auto_parts_shape_symbol(), Symbol::qualified("auto", "parts-shape"));
    for symbol in auto_parts_citizen_symbols() {
        assert!(exports.contains(&symbol.as_qualified_str()));
    }
}

#[test]
fn parts_fabric_serves_catalog_and_order_requests() {
    let mut fabric = AutoPartsFabric::fixture();

    let part = fabric
        .answer(&controls(), &parts_catalog_get_expr(&["engine", "ignition", "coil-1"]))
        .unwrap();
    assert!(format!("{part:?}").contains("SIM-COIL-1"));

    let order = fabric
        .answer(&controls(), &auto_order_expr(Supplier::MekonomenProModeled, &[PartLine::default()]))
        .unwrap();
    let PartsAction::PlaceOrder { supplier, lines } = order else {
        panic!("expected an order for the effect gate");
    };
    assert_eq!(supplier, Supplier::MekonomenProModeled);
    assert_eq!(lines, vec![PartLine::default()]);
    let (status, reply) =
        lib::parts_request::supplier_reply("mekonomen-pro", ORDER_OPERATION, supplier, &lines).unwrap();
    assert!(format!("{reply:?}").contains("SIM-ORDER"));
    fabric.record_order(status);
    assert_eq!(fabric.order_ledger().records().unwrap().len(), 1);
}

#[test]
fn parts_fabric_refuses_deadlines_and_empty_orders() {
    let fabric = AutoPartsFabric::fixture();
    let mut with_deadline = controls();
    with_deadline.has_deadline = true;
    assert!(matches!(
        fabric.answer(&with_deadline, &parts_catalog_get_expr(&["engine"])),
        Err(Error::Eval(message)) if message == "auto parts request: deadline is unsupported"
    ));
    assert!(matches!(
        fabric.answer(&controls(), &auto_order_expr(Supplier::MekonomenProModeled, &[])),
        Err(Error::Eval(message)) if message == "auto parts order requires at least one line"
    ));
    assert!(matches!(
        fabric.answer(&controls(), &parts_catalog_get_expr(&["nope", "coil-1"])),
        Err(Error::Eval(message)) if message == "parts catalog path segment nope is not a directory"
    ));
}

fn controls() -> lib::controls::RequestControls {
    lib::controls::RequestControls {
        plain_eval: true,
        mode: "eval".to_owned(),
        has_deadline: false,
        remote_only: false,
        answer_limit: None,
        stream: false,
        has_stream_buffer: false,
    }
}

#[test]
fn parts_request_parser_refuses_bad_shapes() {
    assert!(matches!(
        parse_parts_request(&Expr::Nil),
        Err(Error::Eval(message)) if message == "auto parts request must be a map"
    ));
    let unknown = Expr::Dict(vec![(Expr::Symbol(Symbol::new("op")), Expr::String("dance".to_owned()))]);
    assert!(matches!(
        parse_parts_request(&unknown),
        Err(Error::Eval(message)) if message == "unknown auto parts operation dance"
    ));
    let missing = Expr::Dict(vec![(Expr::Symbol(Symbol::new("op")), Expr::String("catalog/get".to_owned()))]);
    assert!(matches!(
        parse_parts_request(&missing),
        Err(Error::Eval(message)) if message == "missing auto parts request field path"
    ));
    let supplier = Expr::Dict(vec![
        (Expr::Symbol(Symbol::new("op")), Expr::String("auto/order".to_owned())),
        (Expr::Symbol(Symbol::new("supplier")), Expr::String("acme".to_owned())),
    ]);
    assert!(matches!(
        parse_parts_request(&supplier),
        Err(Error::Eval(message)) if message == "unknown auto parts supplier"
    ));
}

#[test]
fn supplier_reply_carries_the_accepted_status() {
    let lines = vec![PartLine::default()];
    let (status, reply) =
        lib::parts_request::supplier_reply("mekonomen-pro", ORDER_OPERATION, Supplier::MekonomenProModeled, &lines)
            .unwrap();
    assert_eq!(status.id, "SIM-ORDER-SIM-COIL-1x1");
    let text = format!("{reply:?}");
    assert!(text.contains("mekonomen-pro"));
    assert!(text.contains("SIM-ORDER-SIM-COIL-1x1"));
    assert!(lib::parts_request::supplier_reply("mekonomen-pro", ORDER_OPERATION, Supplier::MekonomenProLive, &lines).is_err());
}

#[test]
fn order_args_list_the_lines_as_citizens() {
    let args = lib::parts_request::order_args_expr(Supplier::MekonomenProModeled, &[PartLine::default()]);
    let Expr::Dict(entries) = args else {
        panic!("expected a map");
    };
    assert_eq!(entries.len(), 2);
    assert_eq!(decode_part_lines(&entries[1].1).unwrap(), vec![PartLine::default()]);
}

#[test]
fn supplier_and_catalog_labels_parse_back() {
    for supplier in [Supplier::MekonomenProModeled, Supplier::MekonomenProLive] {
        assert_eq!(Supplier::parse(supplier.as_str()), Some(supplier));
    }
    for catalog in [PartsCatalog::EpcModeled, PartsCatalog::AftermarketModeled] {
        assert_eq!(PartsCatalog::parse(catalog.as_str()), Some(catalog));
    }
    assert_eq!(Supplier::parse(" Mekonomen_Pro "), Some(Supplier::MekonomenProModeled));
    assert_eq!(Supplier::parse("acme"), None);
}

#[test]
fn written_requests_parse_back() {
    let request = parse_parts_request(&auto_order_expr(Supplier::MekonomenProLive, &[PartLine::default()])).unwrap();
    assert_eq!(
        request,
        PartsRequest::Order { supplier: Supplier::MekonomenProLive, lines: vec![PartLine::default()] }
    );
    let request = parse_parts_request(&parts_catalog_get_expr(&["engine", "ignition"])).unwrap();
    assert_eq!(request, PartsRequest::CatalogGet { path: vec!["engine".to_owned(), "ignition".to_owned()] });
}
