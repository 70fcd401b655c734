use lib::controls::RequestControls;
use lib::diag::{AutoDiagFabric, DiagnosticRequest, ModeledVehicle, auto_fabric, code_expr, freeze_frame_expr, read_dtcs_expr, read_pid_expr};
use lib::domain::{AUTO_CONTROL_EXEC, AUTO_DIAGNOSTICS_READ, AUTO_TRANSPORT_CONNECT, BrandCaps, VehicleId};
use lib::expr::Expr;
use lib::kernel::{CapabilityName, CapabilitySet, Error};
use lib::libs::{AutoDiagLib, LibExport, auto_diag_site_symbol};
use lib::session::{AutoSession, TransportPlacement};

fn controls() -> RequestControls {
    RequestControls {
        plain_eval: true,
        mode: "eval".to_owned(),
        has_deadline: false,
        remote_only: false,
        answer_limit: None,
        stream: false,
        has_stream_buffer: false,
    }
}

fn held(capabilities: &[&str]) -> CapabilitySet {
    let mut set = CapabilitySet::new();
    for capability in capabilities {
        set = set.grant(CapabilityName::new(capability));
    }
    set
}

fn names(capabilities: &[&str]) -> Vec<CapabilityName> {
    capabilities.iter().map(|c| CapabilityName::new(c)).collect()
}

fn session(capabilities: &[&str], transport: TransportPlacement) -> AutoSession {
    let grants = names(capabilities);
    AutoSession::new(
        VehicleId::new("fixture", "vehicle-alpha"),
        BrandCaps::new("fixture-brand", grants.clone()),
        transport,
        grants,
    )
}

fn read_session() -> AutoSession {
    session(&[AUTO_DIAGNOSTICS_READ], TransportPlacement::modeled())
}

fn control_session() -> AutoSession {
    session(&[AUTO_DIAGNOSTICS_READ, AUTO_CONTROL_EXEC], TransportPlacement::modeled())
}

fn bridge_session() -> AutoSession {
    session(
        &[AUTO_DIAGNOSTICS_READ, AUTO_TRANSPORT_CONNECT],
        TransportPlacement::local_bridge("bench"),
    )
}

fn text(expr: &Expr) -> String {
    format!("{expr:?}")
}

#[test]
fn modeled_fabric_reads_dtcs_pids_and_freeze_frames() {
    let caps = held(&[AUTO_DIAGNOSTICS_READ]);
    let allowed = names(&[AUTO_DIAGNOSTICS_READ]);
    let fabric = auto_fabric(read_session());

    let dtcs = fabric.answer(&controls(), &caps, &allowed, &read_dtcs_expr("ME97")).unwrap();
    assert!(text(&dtcs).contains("P0301"));

    let pid = fabric.answer(&controls(), &caps, &allowed, &read_pid_expr("ME97", "rpm")).unwrap();
    assert!(text(&pid).contains("1840"));

    let freeze = fabric.answer(&controls(), &caps, &allowed, &freeze_frame_expr("ME97")).unwrap();
    assert!(text(&freeze).contains("freeze-frames"));
}

#[test]
fn controlled_operations_require_diminished_control_capability() {
    let caps = held(&[AUTO_DIAGNOSTICS_READ, AUTO_CONTROL_EXEC]);
    let allowed = names(&[AUTO_DIAGNOSTICS_READ, AUTO_CONTROL_EXEC]);
    let read_only = auto_fabric(read_session());
    let denied = read_only.answer(&controls(), &caps, &allowed, &code_expr("ME97"));
    assert!(matches!(
        denied,
        Err(Error::CapabilityDenied { capability }) if capability.as_str() == AUTO_CONTROL_EXEC
    ));

    let controlled = auto_fabric(control_session());
    let accepted = controlled.answer(&controls(), &caps, &allowed, &code_expr("ME97")).unwrap();
    assert!(text(&accepted).contains("accepted"));
}

#[test]
fn local_bridge_is_default_denied_without_transport_grant() {
    let caps = held(&[AUTO_DIAGNOSTICS_READ, AUTO_TRANSPORT_CONNECT]);
    let allowed = names(&[AUTO_DIAGNOSTICS_READ, AUTO_TRANSPORT_CONNECT]);
    let denied_session = read_session().with_transport(TransportPlacement::local_bridge("bench"));
    let denied = auto_fabric(denied_session).answer(&controls(), &caps, &allowed, &read_dtcs_expr("ME97"));
    assert!(matches!(
        denied,
        Err(Error::CapabilityDenied { capability }) if capability.as_str() == AUTO_TRANSPORT_CONNECT
    ));

    let reply = auto_fabric(bridge_session())
        .answer(&controls(), &caps, &allowed, &read_dtcs_expr("ME97"))
        .unwrap();
    assert!(text(&reply).contains("ME97"));
}

#[test]
fn diagnostic_lib_exports_modeled_site_value() {
    let exports = AutoDiagLib.exports();
    assert!(exports
        .iter()
        .any(|export| matches!(export, LibExport::Site { symbol } if *symbol == auto_diag_site_symbol())));
}

#[test]
fn direct_modeled_methods_enforce_session_read_grant() {
    let fabric = AutoDiagFabric::new(
        AutoSession::modeled(
            VehicleId::new("fixture", "vehicle-alpha"),
            BrandCaps::new("fixture-brand", Vec::new()),
            Vec::new(),
        ),
        ModeledVehicle::fixture(),
    );
    let denied = fabric.read_dtcs("ME97");
    assert!(matches!(
        denied,
        Err(Error::CapabilityDenied { capability }) if capability.as_str() == AUTO_DIAGNOSTICS_READ
    ));
}

#[test]
fn caller_without_the_request_capability_is_denied_first() {
    let caps = held(&[]);
    let allowed = names(&[AUTO_DIAGNOSTICS_READ]);
    let denied = auto_fabric(read_session()).answer(&controls(), &caps, &allowed, &read_dtcs_expr("ME97"));
    assert!(matches!(
        denied,
        Err(Error::CapabilityDenied { capability }) if capability.as_str() == AUTO_DIAGNOSTICS_READ
    ));
}

#[test]
fn streaming_requests_are_refused_before_parsing() {
    let caps = held(&[AUTO_DIAGNOSTICS_READ]);
    let allowed = names(&[AUTO_DIAGNOSTICS_READ]);
    let mut streaming = controls();
    streaming.stream = true;
    let refused = auto_fabric(read_session()).answer(&streaming, &caps, &allowed, &Expr::Nil);
    assert!(matches!(
        refused,
        Err(Error::Eval(message)) if message == "auto diagnostic request: streaming replies are unsupported"
    ));
}

#[test]
fn unknown_ecu_is_refused() {
    let fabric = AutoDiagFabric::fixture();
    assert!(fabric.read_dtcs("NOPE").is_err());
    assert!(fabric.read_pid("ME97", "no-such-pid").is_err());
}

#[test]
fn request_builders_parse_back_as_what_they_ask_for() {
    assert_eq!(
        DiagnosticRequest::parse(&read_dtcs_expr("engine")).unwrap(),
        DiagnosticRequest::ReadDtcs { ecu: "engine".to_owned() }
    );
    assert_eq!(
        DiagnosticRequest::parse(&read_pid_expr("engine", "rpm")).unwrap(),
        DiagnosticRequest::ReadPid { ecu: "engine".to_owned(), pid: "rpm".to_owned() }
    );
    assert_eq!(
        DiagnosticRequest::parse(&freeze_frame_expr("body")).unwrap(),
        DiagnosticRequest::FreezeFrame { ecu: "body".to_owned() }
    );
    assert_eq!(
        DiagnosticRequest::parse(&code_expr("engine")).unwrap(),
        DiagnosticRequest::Control { operation: "auto/code".to_owned(), ecu: "engine".to_owned() }
    );
}
