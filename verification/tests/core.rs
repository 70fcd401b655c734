use lib::domain::{AUTO_DIAGNOSTICS_READ, AUTO_SERVICE_WRITE, AutoLane, SiteManifest, VehicleId};
use lib::expr::{Expr, Symbol};
use lib::flash::{ModeledFlashSession, StockMapBackup};
use lib::kernel::{CapabilityName, Error};
use lib::libs::{
    AutoCoreLib, LibExport, auto_caps_symbol, auto_citizen_symbols, auto_lanes_symbol, manifest_shape_symbol,
    symbol_from_text,
};
use lib::read_construct::vehicle_read_construct;
use lib::select::{BrandNeed, select_brand};

fn manifest(site: &str, make: &str, lanes: Vec<&str>) -> SiteManifest {
    SiteManifest::new(
        site,
        "vehicle-alpha",
        site,
        lanes.into_iter().map(str::to_owned).collect(),
        vec!["modeled".to_owned()],
        vec!["read/dtc".to_owned()],
    )
    .with_makes(vec![make.to_owned()])
    .with_ceiling(vec![CapabilityName::new(AUTO_DIAGNOSTICS_READ)])
}

fn lanes(items: &[&str]) -> Vec<AutoLane> {
    items.iter().map(|item| AutoLane::new(item)).collect()
}

fn export_symbol(export: &LibExport) -> String {
    match export {
        LibExport::Class { symbol }
        | LibExport::Value { symbol }
        | LibExport::Site { symbol }
        | LibExport::Function { symbol } => symbol.as_qualified_str(),
    }
}

#[test]
fn select_prefers_exact_make_then_narrower_lane_set() {
    let fallback = manifest("bosch", "*", vec!["read", "info", "service"]);
    let exact_broad = manifest("volvo-broad", "volvo", vec!["read", "info", "service"]);
    let exact_narrow = manifest("vida", "volvo", vec!["read", "info"]);
    let need = BrandNeed::new("volvo", lanes(&["read", "info"]));

    let selected = select_brand(&[fallback, exact_broad, exact_narrow], &need).unwrap();

    assert_eq!(selected.manifest.site, "vida");
    assert!(selected.exact_make);
    assert_eq!(selected.lane_surplus, 0);
}

#[test]
fn select_reports_no_match_and_denied_capabilities() {
    let fallback = manifest("bosch", "*", vec!["read", "info"]);
    let no_match = select_brand(
        std::slice::from_ref(&fallback),
        &BrandNeed::new("saab", lanes(&["parts"])),
    );
    assert!(matches!(no_match, Err(Error::Eval(message)) if message.contains("missing parts")));

    let denied = select_brand(
        &[fallback],
        &BrandNeed::new("saab", lanes(&["read"])).requiring(CapabilityName::new(AUTO_SERVICE_WRITE)),
    );
    assert!(matches!(denied, Err(Error::Eval(message)) if message.contains("capability ceiling")));
}

#[test]
fn select_falls_back_to_a_wildcard_make() {
    let fallback = manifest("bosch", "*", vec!["read", "info", "service"]);
    let other = manifest("vida", "volvo", vec!["read", "info"]);
    let selected = select_brand(&[other, fallback], &BrandNeed::new("saab", lanes(&["read"]))).unwrap();

    assert_eq!(selected.manifest.site, "bosch");
    assert!(!selected.exact_make);
    assert_eq!(selected.lane_surplus, 2);
}

#[test]
fn core_lib_exports_values_and_classes() {
    let exports = AutoCoreLib.exports();
    let declared = exports.iter().map(export_symbol).collect::<Vec<_>>();

    assert!(declared.contains(&auto_caps_symbol().as_qualified_str()));
    assert!(declared.contains(&auto_lanes_symbol().as_qualified_str()));
    assert!(declared.contains(&manifest_shape_symbol().as_qualified_str()));
    for symbol in auto_citizen_symbols() {
        assert!(
            exports
                .iter()
                .any(|export| matches!(export, LibExport::Class { symbol: s } if *s == symbol)),
            "missing class {}",
            symbol.as_qualified_str()
        );
    }
    let caps = lib::domain::auto_capability_texts();
    assert!(caps.contains(&AUTO_DIAGNOSTICS_READ));
    assert!(caps.contains(&lib::domain::AUTO_ORDER));
    assert!(caps.contains(&lib::domain::AUTO_FLASH));
}

#[test]
fn manifest_declares_core_exports() {
    let declared = AutoCoreLib.exports().iter().map(export_symbol).collect::<Vec<_>>();
    assert!(declared.contains(&"auto/caps".to_owned()));
    assert!(declared.contains(&"auto/lanes".to_owned()));
    assert!(declared.contains(&"auto/manifest-shape".to_owned()));
    assert_eq!(AutoCoreLib.id(), Symbol::qualified("auto", "core"));
}

#[test]
fn vehicle_helper_emits_citizen_read_construct() {
    let expr = vehicle_read_construct(&VehicleId::new("fixture", "vehicle-alpha"));
    let Expr::Extension { tag, payload } = expr else {
        panic!("expected extension expression");
    };
    assert_eq!(tag, Symbol::qualified("citizen", "read-construct"));

    let Expr::Vector(items) = *payload else {
        panic!("expected vector payload");
    };
    assert!(matches!(
        items.first(),
        Some(Expr::Symbol(symbol)) if *symbol == Symbol::qualified("auto", "VehicleId")
    ));
}

#[test]
fn modeled_flash_backup_flash_restore_round_trips_stock_bytes() {
    let stock = vec![0x10, 0x20, 0x30, 0x40];
    let tuned = vec![0xaa, 0xbb, 0xcc, 0xdd];
    let mut session = ModeledFlashSession::new("DME", stock.clone());
    assert_eq!(session.read_ecu(), stock.as_slice());

    let backup = session.backup_stock();
    assert_eq!(backup, StockMapBackup::new("DME", stock.clone()));
    assert!(backup.content_key.starts_with("auto-stock-fnv1a64-"));
    let artifact = format!("{:?}", backup.reversal_artifact());
    assert!(artifact.contains("content-key"));

    session.flash(tuned.clone(), &backup).unwrap();
    assert_eq!(session.read_ecu(), tuned.as_slice());
    let restored = session.restore(&backup).unwrap();
    assert_eq!(restored, stock);
    assert_eq!(session.read_ecu(), restored.as_slice());
}

#[test]
fn flash_refuses_a_backup_of_another_ecu() {
    let mut session = ModeledFlashSession::new("DME", vec![1, 2, 3]);
    let foreign = StockMapBackup::new("TCU", vec![1, 2, 3]);
    assert!(session.flash(vec![9, 9, 9], &foreign).is_err());
    assert_eq!(session.read_ecu(), &[1, 2, 3][..]);
}

#[test]
fn symbol_text_splits_at_the_first_slash() {
    let symbol = symbol_from_text("auto/vehicle/by-plate");
    assert_eq!(symbol, Symbol::qualified("auto", "vehicle/by-plate"));
    assert_eq!(symbol.as_qualified_str(), "auto/vehicle/by-plate");
    assert_eq!(symbol_from_text("plain"), Symbol::new("plain"));
}

fn strings(expr: &Expr) -> Vec<String> {
    let Expr::List(items) = expr else {
        panic!("expected a list, got {expr:?}");
    };
    items
        .iter()
        .map(|item| match item {
            Expr::String(text) => text.clone(),
            other => panic!("expected a string, got {other:?}"),
        })
        .collect()
}

#[test]
fn core_values_list_capabilities_and_lanes() {
    let caps = strings(&lib::libs::auto_caps_value());
    assert!(caps.contains(&AUTO_DIAGNOSTICS_READ.to_owned()));
    assert!(caps.contains(&lib::domain::AUTO_ORDER.to_owned()));
    assert!(caps.contains(&lib::domain::AUTO_FLASH.to_owned()));
    assert_eq!(strings(&lib::libs::auto_lanes_value()), ["diagnostics", "telemetry", "manifest", "service"]);
    assert!(lib::libs::manifest_shape_text().starts_with("auto/SiteManifest"));
}

#[test]
fn exported_source_and_supplier_lists() {
    assert_eq!(
        strings(&lib::libs::auto_info_sources_value()),
        ["wis-modeled", "ista-modeled", "vida-modeled", "esitronic-modeled", "haynespro-modeled", "shop-authored"]
    );
    assert_eq!(
        strings(&lib::libs::auto_parts_suppliers_value()),
        ["mekonomen-pro-modeled", "mekonomen-pro-live"]
    );
    let contracts = lib::vehicle_site::auto_vehicle_contracts_value();
    let Expr::List(items) = contracts else {
        panic!("expected a list");
    };
    assert_eq!(items.len(), 2);
}

#[test]
fn flash_and_restore_keep_the_label_and_stock_image() {
    let stock = vec![0x10, 0x20, 0x30];
    let mut session = ModeledFlashSession::new("DME", stock.clone());
    let backup = session.backup_stock();
    let foreign = StockMapBackup::new("TCU", stock.clone());
    session.flash(vec![0xAA, 0xBB], &backup).unwrap();
    assert!(session.flash(vec![0xCC], &foreign).is_err());
    assert!(session.restore(&foreign).is_err());
    session.flash(vec![0xDD, 0xEE, 0xFF], &backup).unwrap();
    session.restore(&backup).unwrap();
    session.flash(vec![0x01], &backup).unwrap();
    assert_eq!(session.backup_stock(), StockMapBackup::new("DME", stock));
}
