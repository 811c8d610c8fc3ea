use yappy_cajas::caja::Caja;
use yappy_cajas::estado::CajasEstadoEnum;
use yappy_cajas::recorder::{guardar_datos_caja, reconcile};
use yappy_cajas::reply::{decode_reply, GatewayReply};
use yappy_cajas::store::{RespuestaJson, StoreWrite};

fn open_caja() -> Caja {
    let mut caja = Caja::new(7, 1, "Caja 7".to_string(), "kiosko".to_string());
    caja.open_session("tok-7".to_string());
    caja
}

fn body(raw: &str) -> GatewayReply {
    decode_reply(Ok(raw.to_string()))
}

#[test]
fn record_success_writes_one_row_per_summary_line_and_closes() {
    let mut caja = open_caja();
    let reply = body(
        r#"{"status":{"code":"YP-0000"},"body":{"summary":[{"type":"CASH","amount":10.5,"transactions":2}]}}"#,
    );
    let writes = guardar_datos_caja(&mut caja, &reply);
    assert_eq!(writes.len(), 2);
    match &writes[0] {
        StoreWrite::InsertResumen(row) => {
            assert_eq!(row.id_caja, 7);
            assert_eq!(row.tipo, "CASH");
            assert_eq!(f64::from_bits(row.monto.bits), 10.5);
            assert_eq!(row.transacciones, 2);
        }
        other => panic!("unexpected write {:?}", other),
    }
    match &writes[1] {
        StoreWrite::SaveSession { id_caja, token_autorizacion, estado } => {
            assert_eq!(*id_caja, 7);
            assert_eq!(*token_autorizacion, None);
            assert_eq!(*estado, CajasEstadoEnum::Cerrado);
        }
        other => panic!("unexpected write {:?}", other),
    }
    assert_eq!(caja.estado, CajasEstadoEnum::Cerrado);
    assert_eq!(caja.token_autorizacion, None);
    assert!(caja.is_wf());
}

#[test]
fn record_other_code_writes_one_error_row_and_keeps_state() {
    let mut caja = open_caja();
    let raw = r#"{"status":{"code":"YP-9999"}}"#;
    let writes = guardar_datos_caja(&mut caja, &body(raw));
    assert_eq!(writes.len(), 1);
    match &writes[0] {
        StoreWrite::InsertError(row) => {
            assert_eq!(row.id_caja, 7);
            match &row.respuesta_json {
                RespuestaJson::Gateway(kept) => assert_eq!(kept, raw),
                other => panic!("unexpected payload {:?}", other),
            }
        }
        other => panic!("unexpected write {:?}", other),
    }
    assert_eq!(caja.estado, CajasEstadoEnum::Abierto);
    assert_eq!(caja.token_autorizacion, Some("tok-7".to_string()));
}

#[test]
fn record_other_code_on_closed_register_keeps_it_closed() {
    let mut caja = Caja::new(3, 1, "Caja 3".to_string(), "kiosko".to_string());
    let writes = guardar_datos_caja(&mut caja, &body(r#"{"status":{"code":"YP-9999"}}"#));
    assert_eq!(writes.len(), 1);
    assert!(matches!(writes[0], StoreWrite::InsertError(_)));
    assert_eq!(caja.estado, CajasEstadoEnum::Cerrado);
    assert_eq!(caja.token_autorizacion, None);
}

#[test]
fn record_absent_code_is_an_error() {
    let mut caja = open_caja();
    let writes = guardar_datos_caja(&mut caja, &body(r#"{"body":{"summary":[]}}"#));
    assert_eq!(writes.len(), 1);
    assert!(matches!(writes[0], StoreWrite::InsertError(_)));
    assert_eq!(caja.estado, CajasEstadoEnum::Abierto);
}

#[test]
fn record_code_that_is_no_string_is_an_error() {
    let mut caja = open_caja();
    let writes = guardar_datos_caja(&mut caja, &body(r#"{"status":{"code":0}}"#));
    assert_eq!(writes.len(), 1);
    assert!(matches!(writes[0], StoreWrite::InsertError(_)));
    assert_eq!(caja.estado, CajasEstadoEnum::Abierto);
}

#[test]
fn record_transport_failure_writes_one_error_row_with_the_message() {
    let mut caja = open_caja();
    let reply = decode_reply(Err("connection refused".to_string()));
    let writes = guardar_datos_caja(&mut caja, &reply);
    assert_eq!(writes.len(), 1);
    match &writes[0] {
        StoreWrite::InsertError(row) => match &row.respuesta_json {
            RespuestaJson::Transport(message) => assert_eq!(message, "connection refused"),
            other => panic!("unexpected payload {:?}", other),
        },
        other => panic!("unexpected write {:?}", other),
    }
    assert_eq!(caja.estado, CajasEstadoEnum::Abierto);
    assert_eq!(caja.token_autorizacion, Some("tok-7".to_string()));
}

#[test]
fn record_unreadable_body_counts_as_transport_failure() {
    let mut caja = open_caja();
    let writes = guardar_datos_caja(&mut caja, &body("<html>502</html>"));
    assert_eq!(writes.len(), 1);
    match &writes[0] {
        StoreWrite::InsertError(row) => {
            assert!(matches!(row.respuesta_json, RespuestaJson::Transport(_)))
        }
        other => panic!("unexpected write {:?}", other),
    }
    assert_eq!(caja.estado, CajasEstadoEnum::Abierto);
}

#[test]
fn record_missing_fields_take_their_defaults() {
    let mut caja = open_caja();
    let reply = body(r#"{"status":{"code":"YP-0000"},"body":{"summary":[{}]}}"#);
    let writes = guardar_datos_caja(&mut caja, &reply);
    assert_eq!(writes.len(), 2);
    match &writes[0] {
        StoreWrite::InsertResumen(row) => {
            assert_eq!(row.tipo, "UNKNOWN");
            assert_eq!(row.monto.bits, 0);
            assert_eq!(f64::from_bits(row.monto.bits), 0.0);
            assert_eq!(row.transacciones, 0);
        }
        other => panic!("unexpected write {:?}", other),
    }
}

#[test]
fn record_fields_of_the_wrong_type_take_their_defaults() {
    let mut caja = open_caja();
    let reply = body(
        r#"{"status":{"code":"YP-0000"},"body":{"summary":[{"type":5,"amount":"10.5","transactions":1.5}]}}"#,
    );
    let writes = guardar_datos_caja(&mut caja, &reply);
    match &writes[0] {
        StoreWrite::InsertResumen(row) => {
            assert_eq!(row.tipo, "UNKNOWN");
            assert_eq!(row.monto.bits, 0);
            assert_eq!(row.transacciones, 0);
        }
        other => panic!("unexpected write {:?}", other),
    }
}

#[test]
fn record_keeps_the_order_of_the_summary() {
    let mut caja = open_caja();
    let reply = body(
        r#"{"status":{"code":"YP-0000"},"body":{"summary":[{"type":"CASH","amount":1,"transactions":1},{"type":"CARD","amount":2.25,"transactions":3},{"type":"QR","amount":-4,"transactions":0}]}}"#,
    );
    let writes = guardar_datos_caja(&mut caja, &reply);
    assert_eq!(writes.len(), 4);
    let mut seen = Vec::new();
    for write in &writes[..3] {
        match write {
            StoreWrite::InsertResumen(row) => {
                seen.push((row.tipo.clone(), f64::from_bits(row.monto.bits), row.transacciones))
            }
            other => panic!("unexpected write {:?}", other),
        }
    }
    assert_eq!(
        seen,
        vec![
            ("CASH".to_string(), 1.0, 1),
            ("CARD".to_string(), 2.25, 3),
            ("QR".to_string(), -4.0, 0),
        ]
    );
    assert!(matches!(writes[3], StoreWrite::SaveSession { .. }));
}

#[test]
fn record_success_without_summary_closes_with_no_rows() {
    let mut caja = open_caja();
    let writes = guardar_datos_caja(&mut caja, &body(r#"{"status":{"code":"YP-0000"}}"#));
    assert_eq!(writes.len(), 1);
    assert!(matches!(writes[0], StoreWrite::SaveSession { .. }));
    assert_eq!(caja.estado, CajasEstadoEnum::Cerrado);
    assert_eq!(caja.token_autorizacion, None);
}

#[test]
fn record_summary_that_is_no_array_closes_with_no_rows() {
    let mut caja = open_caja();
    let reply = body(r#"{"status":{"code":"YP-0000"},"body":{"summary":{"type":"CASH"}}}"#);
    let writes = guardar_datos_caja(&mut caja, &reply);
    assert_eq!(writes.len(), 1);
    assert_eq!(caja.estado, CajasEstadoEnum::Cerrado);
}

#[test]
fn record_count_is_cut_to_32_bits() {
    let mut caja = open_caja();
    let reply = body(
        r#"{"status":{"code":"YP-0000"},"body":{"summary":[{"type":"CASH","amount":1,"transactions":4294967298}]}}"#,
    );
    let writes = guardar_datos_caja(&mut caja, &reply);
    match &writes[0] {
        StoreWrite::InsertResumen(row) => assert_eq!(row.transacciones, 2),
        other => panic!("unexpected write {:?}", other),
    }
}

#[test]
fn record_count_beyond_64_bits_is_missing() {
    let mut caja = open_caja();
    let reply = body(
        r#"{"status":{"code":"YP-0000"},"body":{"summary":[{"transactions":18446744073709551615}]}}"#,
    );
    let writes = guardar_datos_caja(&mut caja, &reply);
    match &writes[0] {
        StoreWrite::InsertResumen(row) => assert_eq!(row.transacciones, 0),
        other => panic!("unexpected write {:?}", other),
    }
}

#[test]
fn reconcile_says_whether_the_register_closes() {
    let (writes, closed) = reconcile(9, &body(r#"{"status":{"code":"YP-0000"}}"#));
    assert!(closed);
    assert_eq!(writes.len(), 1);
    let (writes, closed) = reconcile(9, &body(r#"{"status":{"code":"yp-0000"}}"#));
    assert!(!closed);
    assert_eq!(writes.len(), 1);
    let (_, closed) = reconcile(9, &decode_reply(Err("timeout".to_string())));
    assert!(!closed);
}

#[test]
fn record_twice_on_the_same_reply_gives_the_same_rows() {
    let raw = r#"{"status":{"code":"YP-0000"},"body":{"summary":[{"type":"CASH","amount":10.5,"transactions":2}]}}"#;
    let mut interactive = open_caja();
    let mut scheduled = open_caja();
    let first = guardar_datos_caja(&mut interactive, &body(raw));
    let (second, closed) = reconcile(scheduled.id, &body(raw));
    if closed {
        scheduled.close_session();
    }
    assert_eq!(format!("{:?}", first), format!("{:?}", second));
    assert_eq!(format!("{:?}", interactive), format!("{:?}", scheduled));
}
