use lib::controls::RequestControls;
use lib::expr::{Expr, Symbol};
use lib::kernel::{CapabilityName, CapabilitySet, Error};
use lib::libs::{
    AutoVehicleLib, LibExport, auto_vehicle_contracts_symbol, auto_vehicle_site_symbol, vehicle_lookup_shape_symbol,
};
use lib::vehicle::{
    NET_HTTP_CAPABILITY, VehicleLookupKind, VehicleLookupRequest, VehicleSource, normalize_plate, normalize_vin,
    vehicle_bridge_contracts, vehicle_by_plate, vehicle_by_vin,
};
use lib::vehicle_request::{vehicle_by_plate_expr, vehicle_by_vin_expr};
use lib::vehicle_site::VehicleIdentityFabric;

fn controls() -> RequestControls {
    RequestControls {
        plain_eval: true,
        mode: "eval".to_owned(),
        has_deadline: false,
        remote_only: false,
        answer_limit: None,
        stream: false,
        has_stream_buffer: false,
    }
}

fn granted(capabilities: &[&str]) -> CapabilitySet {
    let mut set = CapabilitySet::new();
    for capability in capabilities {
        set = set.grant(CapabilityName::new(capability));
    }
    set
}

#[test]
fn modeled_lookup_resolves_plate_and_vin_to_vehicle_id() {
    let none = granted(&[]);
    let by_plate = vehicle_by_plate(&none, VehicleSource::Modeled, "sim 123", "se").unwrap();
    let by_vin = vehicle_by_vin(&none, VehicleSource::Modeled, "sim-vin-alpha-001", "SE").unwrap();

    assert_eq!(by_plate.namespace, "modeled-se");
    assert_eq!(by_plate.key, "vehicle-alpha");
    assert_eq!(by_vin, by_plate);
}

#[test]
fn request_parser_normalizes_synthetic_identifiers() {
    let plate = VehicleLookupRequest::parse(&vehicle_by_plate_expr(VehicleSource::Modeled, "Sim 45 X", "se")).unwrap();
    let vin =
        VehicleLookupRequest::parse(&vehicle_by_vin_expr(VehicleSource::Modeled, "sim vin beta 002", "SE")).unwrap();

    assert_eq!(plate.key, "SIM45X");
    assert_eq!(plate.market, "SE");
    assert_eq!(vin.key, "SIMVINBETA002");
}

#[test]
fn live_contracts_require_net_http_and_fail_closed() {
    let denied = vehicle_by_plate(&granted(&[]), VehicleSource::HaynesPro, "sim 123", "SE");
    assert!(matches!(
        denied,
        Err(Error::CapabilityDenied { capability }) if capability.as_str() == NET_HTTP_CAPABILITY
    ));

    let unconfigured = vehicle_by_vin(
        &granted(&[NET_HTTP_CAPABILITY]),
        VehicleSource::BiluppgifterSe,
        "sim vin alpha 001",
        "SE",
    );
    assert!(matches!(unconfigured, Err(Error::Eval(message)) if message.contains("host-owned")));
}

#[test]
fn bridge_contract_catalog_names_only_public_boundaries() {
    let contracts = vehicle_bridge_contracts();
    assert_eq!(contracts.len(), 2);
    assert!(contracts.iter().all(|contract| {
        contract.required_capability == NET_HTTP_CAPABILITY
            && contract.operations == ["vehicle/by-plate", "vehicle/by-vin"]
            && !contract.host_boundary.contains("://")
    }));
    let written = format!("{:?}", contracts[0].to_expr());
    assert!(written.contains("required-capability"));
    assert!(written.contains("HaynesPro"));
}

#[test]
fn library_exports_site_contracts_and_shape_descriptor() {
    let exports = AutoVehicleLib.exports();
    assert!(exports
        .iter()
        .any(|export| matches!(export, LibExport::Site { symbol } if *symbol == auto_vehicle_site_symbol())));
    assert!(exports
        .iter()
        .any(|export| matches!(export, LibExport::Value { symbol } if *symbol == auto_vehicle_contracts_symbol())));
    assert!(exports
        .iter()
        .any(|export| matches!(export, LibExport::Value { symbol } if *symbol == vehicle_lookup_shape_symbol())));
}

#[test]
fn fabric_realizes_modeled_lookup() {
    let fabric = VehicleIdentityFabric::fixture();
    let reply = fabric
        .answer(
            &controls(),
            &granted(&["auto/vehicle/read"]),
            &vehicle_by_plate_expr(VehicleSource::Modeled, "sim 123", "SE"),
        )
        .unwrap();

    let text = format!("{reply:?}");
    assert!(text.contains("vehicle-alpha"));
    assert!(text.contains("SIM123"));
}

#[test]
fn fabric_denies_live_lookup_without_net_http() {
    let fabric = VehicleIdentityFabric::fixture();
    let denied = fabric.answer(
        &controls(),
        &granted(&["auto/vehicle/read"]),
        &vehicle_by_vin_expr(VehicleSource::BiluppgifterSe, "sim vin alpha 001", "SE"),
    );

    assert!(matches!(
        denied,
        Err(Error::CapabilityDenied { capability }) if capability.as_str() == NET_HTTP_CAPABILITY
    ));
}

#[test]
fn fabric_refuses_a_zero_answer_limit() {
    let mut limited = controls();
    limited.answer_limit = Some(0);
    let refused = VehicleIdentityFabric::fixture().answer(
        &limited,
        &granted(&[]),
        &vehicle_by_plate_expr(VehicleSource::Modeled, "sim 123", "SE"),
    );
    assert!(matches!(
        refused,
        Err(Error::Eval(message)) if message == "auto vehicle request: answer_limit must be greater than zero"
    ));
}

#[test]
fn map_and_call_forms_parse_like_the_list_form() {
    let map = Expr::Dict(vec![
        (Expr::Symbol(Symbol::new("op")), Expr::String("vehicle/by-vin".to_owned())),
        (Expr::String(":vin".to_owned()), Expr::String("sim-vin-beta-002".to_owned())),
    ]);
    let parsed = VehicleLookupRequest::parse(&map).unwrap();
    assert_eq!(parsed.kind, VehicleLookupKind::Vin);
    assert_eq!(parsed.source, VehicleSource::Modeled);
    assert_eq!(parsed.key, "SIMVINBETA002");
    assert_eq!(parsed.market, "SE");

    let call = Expr::Call {
        operator: Box::new(Expr::Symbol(Symbol::new("vehicle/by-plate"))),
        args: vec![
            Expr::Symbol(Symbol::new(":plate")),
            Expr::String("sim 123".to_owned()),
            Expr::Symbol(Symbol::new(":source")),
            Expr::String("haynes_pro".to_owned()),
        ],
    };
    let parsed = VehicleLookupRequest::parse(&call).unwrap();
    assert_eq!(parsed.source, VehicleSource::HaynesPro);
    assert_eq!(parsed.key, "SIM123");
}

#[test]
fn parser_refuses_bad_requests() {
    assert!(matches!(
        VehicleLookupRequest::parse(&Expr::List(vec![])),
        Err(Error::Eval(message)) if message == "empty vehicle lookup request"
    ));
    let odd = Expr::List(vec![Expr::Symbol(Symbol::new("vehicle/by-vin")), Expr::Symbol(Symbol::new(":vin"))]);
    assert!(matches!(
        VehicleLookupRequest::parse(&odd),
        Err(Error::Eval(message)) if message == "vehicle lookup arguments must be key/value pairs"
    ));
    let missing = Expr::List(vec![Expr::Symbol(Symbol::new("vehicle/by-vin"))]);
    assert!(matches!(
        VehicleLookupRequest::parse(&missing),
        Err(Error::Eval(message)) if message == "missing vehicle lookup field vin"
    ));
    let unknown = Expr::List(vec![Expr::Symbol(Symbol::new("vehicle/by-color"))]);
    assert!(matches!(
        VehicleLookupRequest::parse(&unknown),
        Err(Error::Eval(message)) if message == "unsupported vehicle lookup operation vehicle/by-color"
    ));
}

#[test]
fn identifiers_normalize_or_refuse() {
    assert_eq!(normalize_plate(" sim-45 x ", "se").unwrap(), "SIM45X");
    assert!(normalize_plate("SIM123", "NO").is_err());
    assert_eq!(normalize_vin("sim vin alpha 001").unwrap(), "SIMVINALPHA001");
    assert!(normalize_vin("sim#vin").is_err());
}

#[test]
fn vehicle_source_labels_parse_back() {
    for source in [VehicleSource::Modeled, VehicleSource::HaynesPro, VehicleSource::BiluppgifterSe] {
        assert_eq!(VehicleSource::parse(source.as_str()).unwrap(), source);
    }
    assert!(matches!(
        VehicleSource::parse("Nope"),
        Err(Error::Eval(message)) if message == "unknown vehicle lookup source nope"
    ));
}
