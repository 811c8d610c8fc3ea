use yappy_cajas::caja::Caja;
use yappy_cajas::correlator::{
    current_transaction, handle_transaccion, is_completion, manage_transaction_response, resolve,
    route_kind, TxStage,
};
use yappy_cajas::device::KioskoInfo;
use yappy_cajas::errors::ErrorKind;
use yappy_cajas::estado::CajasEstadoEnum;
use yappy_cajas::flow::Next;
use yappy_cajas::gateway::{
    insert_auth_headers, GatewayRequest, HttpMethod, RequestBody, RouteKind,
};
use yappy_cajas::reply::{decode_reply, GatewayBody, GatewayReply};
use yappy_cajas::store::StoreWrite;

fn caja_with(tx: Option<&str>) -> Caja {
    let mut caja = Caja::new(4, 2, "Caja 4".to_string(), "kiosko".to_string());
    caja.open_session("tok-4".to_string());
    if let Some(id) = tx {
        caja.register_transaction(id.to_string());
    }
    caja
}

fn info() -> KioskoInfo {
    KioskoInfo {
        nombre: "Kiosko Norte".to_string(),
        id_caja: 4,
        nombre_caja: "Caja 4".to_string(),
        token_autorizacion: Some("tok-4".to_string()),
        estado: CajasEstadoEnum::Abierto,
        id_yappy: "grupo-y".to_string(),
        nombre_grupo: "Grupo".to_string(),
        api_key: "ak".to_string(),
        secret_key: "sk".to_string(),
    }
}

fn pairs(request: &GatewayRequest) -> Vec<(String, String)> {
    let map = insert_auth_headers(
        request.api_key.clone(),
        request.secret_key.clone(),
        request.auth_token.clone(),
    )
    .unwrap();
    let mut pairs: Vec<(String, String)> = map
        .iter()
        .map(|(name, value)| (name.as_str().to_string(), value.to_str().unwrap().to_string()))
        .collect();
    pairs.sort();
    pairs
}

fn gateway_body(raw: &str) -> GatewayBody {
    match decode_reply(Ok(raw.to_string())) {
        GatewayReply::Body(body) => body,
        other => panic!("not a body: {:?}", other),
    }
}

#[test]
fn resolve_status_check_completed_returns_and_clears() {
    let mut caja = caja_with(Some("TX1"));
    let body = gateway_body(r#"{"body":{"status":"COMPLETED"}}"#);
    let referencia = manage_transaction_response("/estado-transaccion/1", &body, &mut caja);
    assert_eq!(referencia, Some("TX1".to_string()));
    assert_eq!(caja.transaccion_actual, None);
}

#[test]
fn resolve_status_check_pending_changes_nothing() {
    let mut caja = caja_with(Some("TX1"));
    let body = gateway_body(r#"{"body":{"status":"PENDING"}}"#);
    let referencia = manage_transaction_response("/estado-transaccion/1", &body, &mut caja);
    assert_eq!(referencia, None);
    assert_eq!(caja.transaccion_actual, Some("TX1".to_string()));
}

#[test]
fn resolve_by_route_kind() {
    let mut caja = caja_with(Some("TX1"));
    let body = gateway_body(r#"{"body":{"status":"COMPLETED"}}"#);
    assert_eq!(resolve(RouteKind::Return, &body, &mut caja), None);
    assert_eq!(caja.transaccion_actual, Some("TX1".to_string()));
    assert_eq!(resolve(RouteKind::StatusCheck, &body, &mut caja), Some("TX1".to_string()));
    assert_eq!(caja.transaccion_actual, None);
}

#[test]
fn resolve_return_with_success_code_returns_and_clears() {
    let mut caja = caja_with(Some("TX9"));
    let body = gateway_body(r#"{"status":{"code":"YP-0000"}}"#);
    let referencia = manage_transaction_response("/retornar-transaccion/9", &body, &mut caja);
    assert_eq!(referencia, Some("TX9".to_string()));
    assert_eq!(caja.transaccion_actual, None);
}

#[test]
fn resolve_return_with_other_code_changes_nothing() {
    let mut caja = caja_with(Some("TX9"));
    let body = gateway_body(r#"{"status":{"code":"YP-0001"},"body":{"status":"COMPLETED"}}"#);
    let referencia = manage_transaction_response("/retornar-transaccion/9", &body, &mut caja);
    assert_eq!(referencia, None);
    assert_eq!(caja.transaccion_actual, Some("TX9".to_string()));
}

#[test]
fn resolve_status_check_does_not_read_the_code() {
    let mut caja = caja_with(Some("TX9"));
    let body = gateway_body(r#"{"status":{"code":"YP-0000"},"body":{"status":"PENDING"}}"#);
    let referencia = manage_transaction_response("/estado-transaccion/9", &body, &mut caja);
    assert_eq!(referencia, None);
    assert_eq!(caja.transaccion_actual, Some("TX9".to_string()));
}

#[test]
fn resolve_with_nothing_outstanding_is_no_fault() {
    let mut caja = caja_with(None);
    let body = gateway_body(r#"{"body":{"status":"COMPLETED"}}"#);
    let referencia = manage_transaction_response("/estado-transaccion/1", &body, &mut caja);
    assert_eq!(referencia, None);
    assert_eq!(caja.transaccion_actual, None);
}

#[test]
fn resolve_under_another_path_changes_nothing() {
    let mut caja = caja_with(Some("TX1"));
    let body = gateway_body(r#"{"status":{"code":"YP-0000"},"body":{"status":"COMPLETED"}}"#);
    let referencia = manage_transaction_response("/generar-qr", &body, &mut caja);
    assert_eq!(referencia, None);
    assert_eq!(caja.transaccion_actual, Some("TX1".to_string()));
}

#[test]
fn resolve_keeps_the_session() {
    let mut caja = caja_with(Some("TX1"));
    let body = gateway_body(r#"{"body":{"status":"COMPLETED"}}"#);
    manage_transaction_response("/estado-transaccion/1", &body, &mut caja);
    assert_eq!(caja.estado, CajasEstadoEnum::Abierto);
    assert_eq!(caja.token_autorizacion, Some("tok-4".to_string()));
    assert!(caja.is_wf());
}

#[test]
fn completion_signals() {
    let completed = gateway_body(r#"{"body":{"status":"COMPLETED"}}"#);
    let lower = gateway_body(r#"{"body":{"status":"completed"}}"#);
    let coded = gateway_body(r#"{"status":{"code":"YP-0000"}}"#);
    assert!(is_completion(RouteKind::StatusCheck, &completed));
    assert!(!is_completion(RouteKind::StatusCheck, &lower));
    assert!(!is_completion(RouteKind::StatusCheck, &coded));
    assert!(is_completion(RouteKind::Return, &coded));
    assert!(!is_completion(RouteKind::Return, &completed));
}

#[test]
fn route_kinds() {
    assert_eq!(route_kind("/estado-transaccion/17"), Some(RouteKind::StatusCheck));
    assert_eq!(route_kind("/retornar-transaccion/17"), Some(RouteKind::Return));
    assert_eq!(route_kind("/api/v1/retornar-transaccion"), Some(RouteKind::Return));
    assert_eq!(
        route_kind("/estado-transaccion/retornar-transaccion"),
        Some(RouteKind::StatusCheck)
    );
    assert_eq!(route_kind("/estado-transaccio"), None);
    assert_eq!(route_kind("/cerrar-sesion"), None);
    assert_eq!(route_kind(""), None);
}

#[test]
fn outstanding_charge_is_the_last_registered() {
    let mut caja = caja_with(None);
    caja.register_transaction("TX1".to_string());
    caja.register_transaction("TX2".to_string());
    assert_eq!(caja.transaccion_actual, Some("TX2".to_string()));
    let pending = gateway_body(r#"{"body":{"status":"PENDING"}}"#);
    assert_eq!(manage_transaction_response("/estado-transaccion/2", &pending, &mut caja), None);
    assert_eq!(caja.transaccion_actual, Some("TX2".to_string()));
    let done = gateway_body(r#"{"body":{"status":"COMPLETED"}}"#);
    assert_eq!(
        manage_transaction_response("/estado-transaccion/2", &done, &mut caja),
        Some("TX2".to_string())
    );
    assert_eq!(caja.transaccion_actual, None);
    assert_eq!(manage_transaction_response("/estado-transaccion/2", &done, &mut caja), None);
    caja.register_transaction("TX3".to_string());
    assert_eq!(caja.transaccion_actual, Some("TX3".to_string()));
}

#[test]
fn update_caja_transaccion_actual_null_reads_then_clears() {
    let mut caja = caja_with(Some("TX5"));
    assert_eq!(caja.update_caja_transaccion_actual_null(), Some("TX5".to_string()));
    assert_eq!(caja.transaccion_actual, None);
    assert_eq!(caja.update_caja_transaccion_actual_null(), None);
}

#[test]
fn current_transaction_without_one_is_a_client_error() {
    let caja = caja_with(None);
    let error = current_transaction(&caja).unwrap_err();
    assert_eq!(error.kind, ErrorKind::NoActiveTransaction);
    assert_eq!(error.status, 400);
    assert_eq!(error.error, "Actualmente no hay transacción activa en esta caja");
    let caja = caja_with(Some("TX1"));
    assert_eq!(current_transaction(&caja).unwrap(), "TX1");
}

#[test]
fn transaction_flow_status_check() {
    let mut caja = caja_with(Some("TX1"));
    let step = handle_transaccion(
        TxStage::Begin,
        None,
        &mut caja,
        &info(),
        "https://gw.test/v1",
        "/estado-transaccion/1",
    );
    assert!(step.writes.is_empty());
    let resume = match step.next {
        Next::Call { request, resume } => {
            assert_eq!(request.method, HttpMethod::Get);
            assert_eq!(request.url, "https://gw.test/v1/transaction/TX1");
            assert!(matches!(request.body, RequestBody::Empty));
            assert_eq!(
                pairs(&request),
                vec![
                    ("api-key".to_string(), "ak".to_string()),
                    ("authorization".to_string(), "tok-4".to_string()),
                    ("secret-key".to_string(), "sk".to_string()),
                ]
            );
            resume
        }
        other => panic!("unexpected {:?}", other),
    };
    assert_eq!(resume, TxStage::Resolving);
    let raw = r#"{"body":{"status":"COMPLETED"}}"#;
    let step = handle_transaccion(
        resume,
        Some(decode_reply(Ok(raw.to_string()))),
        &mut caja,
        &info(),
        "https://gw.test/v1",
        "/estado-transaccion/1",
    );
    assert_eq!(step.writes.len(), 1);
    match &step.writes[0] {
        StoreWrite::SaveTransaction { id_caja, transaccion_actual } => {
            assert_eq!(*id_caja, 4);
            assert_eq!(*transaccion_actual, None);
        }
        other => panic!("unexpected write {:?}", other),
    }
    match step.next {
        Next::Done(Ok(success)) => {
            assert_eq!(success.data, Some(raw.to_string()));
            assert_eq!(success.referencia, Some("TX1".to_string()));
        }
        other => panic!("unexpected {:?}", other),
    }
    assert_eq!(caja.transaccion_actual, None);
}

#[test]
fn transaction_flow_return_uses_put() {
    let mut caja = caja_with(Some("TX1"));
    let step = handle_transaccion(
        TxStage::Begin,
        None,
        &mut caja,
        &info(),
        "https://gw.test/v1",
        "/retornar-transaccion/1",
    );
    match step.next {
        Next::Call { request, .. } => assert_eq!(request.method, HttpMethod::Put),
        other => panic!("unexpected {:?}", other),
    }
}

#[test]
fn transaction_flow_pending_writes_nothing() {
    let mut caja = caja_with(Some("TX1"));
    let raw = r#"{"body":{"status":"PENDING"}}"#;
    let step = handle_transaccion(
        TxStage::Resolving,
        Some(decode_reply(Ok(raw.to_string()))),
        &mut caja,
        &info(),
        "https://gw.test/v1",
        "/estado-transaccion/1",
    );
    assert!(step.writes.is_empty());
    match step.next {
        Next::Done(Ok(success)) => {
            assert_eq!(success.data, Some(raw.to_string()));
            assert_eq!(success.referencia, None);
        }
        other => panic!("unexpected {:?}", other),
    }
    assert_eq!(caja.transaccion_actual, Some("TX1".to_string()));
}

#[test]
fn transaction_flow_without_outstanding_charge_fails_before_any_call() {
    let mut caja = caja_with(None);
    let step = handle_transaccion(
        TxStage::Begin,
        None,
        &mut caja,
        &info(),
        "https://gw.test/v1",
        "/estado-transaccion/1",
    );
    assert!(step.writes.is_empty());
    match step.next {
        Next::Done(Err(error)) => {
            assert_eq!(error.kind, ErrorKind::NoActiveTransaction);
            assert_eq!(error.status, 400);
        }
        other => panic!("unexpected {:?}", other),
    }
}

#[test]
fn transaction_flow_under_an_unknown_path_is_an_invalid_route() {
    let mut caja = caja_with(Some("TX1"));
    let step = handle_transaccion(
        TxStage::Begin,
        None,
        &mut caja,
        &info(),
        "https://gw.test/v1",
        "/otra-cosa/1",
    );
    match step.next {
        Next::Done(Err(error)) => {
            assert_eq!(error.kind, ErrorKind::InvalidRoute);
            assert_eq!(error.status, 400);
            assert_eq!(error.error, "Ruta invalida");
        }
        other => panic!("unexpected {:?}", other),
    }
    assert_eq!(caja.transaccion_actual, Some("TX1".to_string()));
}

#[test]
fn transaction_flow_transport_failure_is_surfaced_and_changes_nothing() {
    let mut caja = caja_with(Some("TX1"));
    let step = handle_transaccion(
        TxStage::Resolving,
        Some(decode_reply(Err("dns failure".to_string()))),
        &mut caja,
        &info(),
        "https://gw.test/v1",
        "/estado-transaccion/1",
    );
    assert!(step.writes.is_empty());
    match step.next {
        Next::Done(Err(error)) => {
            assert_eq!(error.kind, ErrorKind::Transport);
            assert_eq!(error.status, 400);
            assert_eq!(error.error, "dns failure");
        }
        other => panic!("unexpected {:?}", other),
    }
    assert_eq!(caja.transaccion_actual, Some("TX1".to_string()));
}

#[test]
fn transaction_flow_without_a_reply_is_a_transport_failure() {
    let mut caja = caja_with(Some("TX1"));
    let step = handle_transaccion(
        TxStage::Resolving,
        None,
        &mut caja,
        &info(),
        "https://gw.test/v1",
        "/estado-transaccion/1",
    );
    match step.next {
        Next::Done(Err(error)) => assert_eq!(error.kind, ErrorKind::Transport),
        other => panic!("unexpected {:?}", other),
    }
}
