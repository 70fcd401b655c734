use lib::citizen::{FieldProblem, decode_vehicle};
use lib::domain::VehicleId;
use lib::expr::{Expr, Symbol};
use lib::libs::{
    AutoOrderLib, LibExport, auto_order_citizen_symbols, auto_order_function_symbol, auto_order_shape_symbol,
};
use lib::order::{
    ConformanceReport, LedgerInvoiceEvidence, LedgerInvoiceExport, LedgerInvoicePosting, WorkOrder, WorkOrderEvent, WorkOrderLedger,
};
use lib::parts::{OrderStatus, PartLine};
use lib::read_construct::vehicle_read_construct;

fn export_symbol(export: &LibExport) -> String {
    match export {
        LibExport::Class { symbol }
        | LibExport::Value { symbol }
        | LibExport::Site { symbol }
        | LibExport::Function { symbol } => symbol.as_qualified_str(),
    }
}

#[test]
fn work_order_citizens_round_trip() {
    let evidence = LedgerInvoiceEvidence::default();
    let decoded = LedgerInvoiceEvidence::decode_field_expr(&evidence.to_expr(), "evidence").unwrap();
    assert_eq!(decoded, evidence);

    let posting = LedgerInvoicePosting::default();
    let decoded = LedgerInvoicePosting::decode_field_expr(&posting.to_expr(), "postings").unwrap();
    assert_eq!(decoded, posting);

    let export = LedgerInvoiceExport::default();
    let decoded = LedgerInvoiceExport::decode_field_expr(&export.to_expr(), "invoice").unwrap();
    assert_eq!(decoded, export);

    let vehicle = VehicleId::new("modeled-se", "vehicle-alpha");
    assert_eq!(decode_vehicle(&vehicle_read_construct(&vehicle)).unwrap(), vehicle);

    let event = WorkOrderEvent::default();
    assert_eq!(WorkOrderEvent::decode_field_expr(&event.to_expr(), "events").unwrap(), event);

    let mut ledger = WorkOrderLedger::default();
    ledger.push(WorkOrderEvent::default());
    assert_eq!(WorkOrderLedger::decode_field_expr(&ledger.to_expr(), "ledger").unwrap(), ledger);

    let order = WorkOrder::default();
    assert_eq!(WorkOrder::decode_field_expr(&order.to_expr(), "work_order").unwrap(), order);

    let report = ConformanceReport::default();
    assert_eq!(ConformanceReport::decode_field_expr(&report.to_expr(), "report").unwrap(), report);
}

#[test]
fn conformance_report_expression_names_its_class() {
    let expr = ConformanceReport::default().to_expr();
    let Expr::Extension { tag, payload } = expr else {
        panic!("expected an extension");
    };
    assert_eq!(tag, Symbol::qualified("citizen", "read-construct"));
    let Expr::Vector(items) = *payload else {
        panic!("expected a vector payload");
    };
    assert!(matches!(
        items.first(),
        Some(Expr::Symbol(symbol)) if *symbol == Symbol::qualified("auto", "ConformanceReport")
    ));
}

#[test]
fn negative_postings_round_trip_through_their_text() {
    for amount in [i64::MIN, -54_900, -1, 0, 1, i64::MAX] {
        let posting = LedgerInvoicePosting::new("3041", amount, "credit");
        let decoded = LedgerInvoicePosting::decode_field_expr(&posting.to_expr(), "postings").unwrap();
        assert_eq!(decoded.amount_minor, amount);
    }
}

#[test]
fn read_construct_of_another_class_is_refused() {
    let posting = LedgerInvoicePosting::default().to_expr();
    let err = LedgerInvoiceEvidence::decode_field_expr(&posting, "evidence").unwrap_err();
    assert_eq!(err.field, "evidence");
    assert!(matches!(err.problem, FieldProblem::Arity { expected: 5, found: 3 }));

    let err = LedgerInvoicePosting::decode_field_expr(&Expr::Nil, "postings").unwrap_err();
    assert!(matches!(err.problem, FieldProblem::NotReadConstruct));
}

#[test]
fn invoice_for_a_work_order_balances() {
    let order = OrderStatus::default();
    let export = LedgerInvoiceExport::for_work_order("SIM-WO-7", &order, &[PartLine::default()], 90);
    assert!(export.is_balanced());
    assert_eq!(export.minor_sum(), 0);
    assert_eq!(export.postings[0].amount_minor, 54_900 + 90 * 1_250);
    assert_eq!(export.postings[1].amount_minor, -54_900);
    assert_eq!(export.postings[2].amount_minor, -90 * 1_250);
    assert_eq!(export.voucher_text, "modeled work order SIM-WO-7 SIM-ORDER-1");
    assert_eq!(export.evidence[0].immutable_hint.as_deref(), Some("fixture-ledger/SIM-ORDER-1"));
}

#[test]
fn ledger_counts_and_sorts_sites() {
    let mut ledger = WorkOrderLedger::new();
    let mut denied = WorkOrderEvent::default();
    denied.site = "autotuner".to_owned();
    denied.outcome = "denied".to_owned();
    ledger.push(WorkOrderEvent::default());
    ledger.push(denied);
    ledger.push(WorkOrderEvent::default());
    assert_eq!(ledger.accepted_count(), 2);
    assert_eq!(ledger.denied_count(), 1);
    assert_eq!(ledger.sites(), ["autotuner", "xentry"]);
}

#[test]
fn default_work_order_carries_a_balanced_invoice() {
    let order = WorkOrder::default();
    assert_eq!(order.id, "SIM-WO-1");
    assert!(order.invoice.as_ref().unwrap().is_balanced());
}

#[test]
fn order_library_exports_function_shape_and_citizens() {
    let exports = AutoOrderLib.exports().iter().map(export_symbol).collect::<Vec<_>>();
    assert!(exports.contains(&"auto/work-order".to_owned()));
    assert!(exports.contains(&"auto/work-order-shape".to_owned()));
    for symbol in auto_order_citizen_symbols() {
        assert!(exports.contains(&symbol.as_qualified_str()));
    }
    assert_eq!(auto_order_function_symbol(), Symbol::qualified("auto", "work-order"));
    assert_eq!(auto_order_shape_symbol(), Symbol::qualified("auto", "work-order-shape"));
}
