use lib::expr::{Expr, Symbol};
use lib::info::{InfoSource, RepairQuery};
use lib::info_request::{auto_info_expr, parse_repair_query};
use lib::kernel::Error;
use lib::libs::{AutoInfoLib, LibExport, auto_info_shape_symbol, auto_info_site_symbol, auto_info_sources_symbol};
use lib::repair::{DocBlock, fixture_vehicle, rank_repair_docs, repair_blocks_from_catalog, repair_catalog};

#[test]
fn catalog_covers_modeled_sources_with_public_fixture_text() {
    let catalog = repair_catalog();
    let sources = catalog
        .iter()
        .map(|procedure| procedure.source)
        .collect::<Vec<_>>();
    for source in InfoSource::all() {
        assert!(sources.contains(&source), "missing source {source:?}");
    }
    for procedure in &catalog {
        let text = format!(
            "{} {} {} {:?} {:?}",
            procedure.title,
            procedure.summary,
            procedure.steps.join(" "),
            procedure.safety_notes,
            procedure.tags
        )
        .to_ascii_lowercase();
        for forbidden in [
            "screenshot",
            "wiring diagram",
            "dealer cookie",
            "vendor token",
            "customer name",
        ] {
            assert!(
                !text.contains(forbidden),
                "procedure {} contains forbidden fixture text {forbidden}",
                procedure.id
            );
        }
    }
}

#[test]
fn rank_uses_vehicle_dtc_ecu_symptom_lane_and_source() {
    let query = RepairQuery::new(fixture_vehicle())
        .with_source(InfoSource::WisModeled)
        .with_dtc_code("P0301")
        .with_ecu("ME97")
        .with_symptom("rough idle");

    let selected = rank_repair_docs(&query, &repair_catalog()).unwrap();

    assert_eq!(selected.id, "wis-misfire-modeled");
}

#[test]
fn every_modeled_source_projects_to_a_valid_document_scene() {
    for source in InfoSource::all() {
        let query = RepairQuery::new(fixture_vehicle()).with_source(source);
        let blocks = repair_blocks_from_catalog(&query, &repair_catalog()).unwrap();
        let text = format!("{blocks:?}");
        assert!(text.contains(source.display_name()), "{text}");
        assert!(matches!(blocks.first(), Some(DocBlock::Section(_))));
    }
}

#[test]
fn request_parser_accepts_map_and_list_forms() {
    let vehicle = fixture_vehicle();
    let map = auto_info_expr(
        &vehicle,
        InfoSource::EsiTronicModeled,
        Some("P0301"),
        Some("ME97"),
        Some("compression"),
    );
    let parsed = parse_repair_query(&map).unwrap();
    assert_eq!(parsed.source, Some(InfoSource::EsiTronicModeled));
    assert_eq!(parsed.dtc.as_deref(), Some("P0301"));

    let list = Expr::List(vec![
        Expr::Symbol(Symbol::qualified("auto", "info")),
        Expr::Symbol(Symbol::new(":vehicle")),
        Expr::String("vehicle-alpha".to_owned()),
        Expr::Symbol(Symbol::new(":source")),
        Expr::String("vida-modeled".to_owned()),
        Expr::Symbol(Symbol::new(":dtc")),
        Expr::String("B1000".to_owned()),
    ]);
    let parsed = parse_repair_query(&list).unwrap();
    assert_eq!(parsed.source, Some(InfoSource::VidaModeled));
    assert_eq!(parsed.dtc.as_deref(), Some("B1000"));
}

#[test]
fn library_exports_info_site_sources_and_shape_descriptor() {
    let exports = AutoInfoLib.exports();
    assert!(exports
        .iter()
        .any(|export| matches!(export, LibExport::Site { symbol } if *symbol == auto_info_site_symbol())));
    assert!(exports
        .iter()
        .any(|export| matches!(export, LibExport::Value { symbol } if *symbol == auto_info_sources_symbol())));
    assert!(exports
        .iter()
        .any(|export| matches!(export, LibExport::Value { symbol } if *symbol == auto_info_shape_symbol())));
}

#[test]
fn unknown_source_is_refused_with_its_label() {
    let list = Expr::List(vec![
        Expr::Symbol(Symbol::qualified("auto", "info")),
        Expr::Symbol(Symbol::new(":source")),
        Expr::String("nope".to_owned()),
    ]);
    assert!(matches!(
        parse_repair_query(&list),
        Err(Error::Eval(message)) if message == "unknown auto info source nope"
    ));
}

#[test]
fn query_matching_nothing_is_refused() {
    let query = RepairQuery::new(lib::domain::VehicleId::new("other", "vehicle-zeta"));
    assert!(matches!(
        rank_repair_docs(&query, &repair_catalog()),
        Err(Error::Eval(message)) if message == "no modeled repair information matched query"
    ));
}

#[test]
fn every_source_parses_back_from_its_label() {
    for source in InfoSource::all() {
        assert_eq!(InfoSource::parse(source.as_str()), Some(source));
    }
}

fn controls() -> lib::controls::RequestControls {
    lib::controls::RequestControls {
        plain_eval: true,
        mode: "eval".to_owned(),
        has_deadline: false,
        remote_only: false,
        answer_limit: None,
        stream: false,
        has_stream_buffer: false,
    }
}

#[test]
fn fabric_realizes_modeled_info_request_as_scene() {
    let fabric = lib::repair::AutoInfoFabric::fixture();
    let blocks = fabric
        .answer(
            &controls(),
            &auto_info_expr(
                &fixture_vehicle(),
                InfoSource::WisModeled,
                Some("P0301"),
                Some("ME97"),
                Some("rough idle"),
            ),
        )
        .unwrap();

    let text = format!("{blocks:?}");
    assert!(text.contains("Modeled misfire diagnosis"));
    assert!(matches!(blocks.first(), Some(DocBlock::Section(title)) if title == "Modeled misfire diagnosis"));
}

#[test]
fn info_site_accepts_a_deadline_but_not_remote_only() {
    let fabric = lib::repair::AutoInfoFabric::fixture();
    let request = auto_info_expr(&fixture_vehicle(), InfoSource::WisModeled, None, None, None);
    let mut with_deadline = controls();
    with_deadline.has_deadline = true;
    assert!(fabric.answer(&with_deadline, &request).is_ok());
    let mut remote = controls();
    remote.remote_only = true;
    assert!(matches!(
        fabric.answer(&remote, &request),
        Err(Error::Eval(message)) if message == "auto/info request: remote-only consistency is unsupported"
    ));
}
