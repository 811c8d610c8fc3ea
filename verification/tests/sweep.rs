use yappy_cajas::estado::CajasEstadoEnum;
use yappy_cajas::flow::Next;
use yappy_cajas::gateway::HttpMethod;
use yappy_cajas::reply::{decode_reply, GatewayReply};
use yappy_cajas::store::{RespuestaJson, StoreWrite};
use yappy_cajas::sweep::{cerrar_cajas_job, CajaWithCreds, SweepStage};

const ENDPOINT: &str = "https://gw.test/v1";

fn caja(id: i32, open: bool) -> CajaWithCreds {
    CajaWithCreds {
        id,
        nombre_caja: format!("Caja {}", id),
        estado: if open { CajasEstadoEnum::Abierto } else { CajasEstadoEnum::Cerrado },
        api_key: format!("ak-{}", id),
        secret_key: format!("sk-{}", id),
        token_autorizacion: if open { Some(format!("tok-{}", id)) } else { None },
    }
}

fn success() -> GatewayReply {
    decode_reply(Ok(
        r#"{"status":{"code":"YP-0000"},"body":{"summary":[{"type":"CASH","amount":3.5,"transactions":1}]}}"#
            .to_string(),
    ))
}

fn run(cajas: &mut Vec<CajaWithCreds>, replies: Vec<GatewayReply>) -> (Vec<i32>, Vec<StoreWrite>) {
    let mut called = Vec::new();
    let mut written = Vec::new();
    let mut replies = replies.into_iter();
    let mut step = cerrar_cajas_job(SweepStage::Begin, None, cajas, ENDPOINT);
    loop {
        written.extend(step.writes);
        match step.next {
            Next::Done(outcome) => {
                assert!(outcome.is_ok());
                return (called, written);
            }
            Next::Call { request, resume } => {
                assert_eq!(request.method, HttpMethod::Delete);
                assert_eq!(request.url, "https://gw.test/v1/session/device");
                match resume {
                    SweepStage::Closing(i) => {
                        assert_eq!(request.api_key, cajas[i].api_key);
                        assert_eq!(request.secret_key, cajas[i].secret_key);
                        assert_eq!(request.auth_token, cajas[i].token_autorizacion);
                        called.push(cajas[i].id);
                    }
                    other => panic!("unexpected stage {:?}", other),
                }
                step = cerrar_cajas_job(resume, replies.next(), cajas, ENDPOINT);
            }
        }
    }
}

#[test]
fn sweep_goes_on_after_a_transport_failure() {
    let mut cajas = vec![caja(1, true), caja(2, true), caja(3, true)];
    let replies = vec![success(), decode_reply(Err("unreachable".to_string())), success()];
    let (called, written) = run(&mut cajas, replies);
    assert_eq!(called, vec![1, 2, 3]);
    assert_eq!(cajas[0].estado, CajasEstadoEnum::Cerrado);
    assert_eq!(cajas[0].token_autorizacion, None);
    assert_eq!(cajas[1].estado, CajasEstadoEnum::Abierto);
    assert_eq!(cajas[1].token_autorizacion, Some("tok-2".to_string()));
    assert_eq!(cajas[2].estado, CajasEstadoEnum::Cerrado);
    assert_eq!(cajas[2].token_autorizacion, None);
    assert_eq!(written.len(), 5);
    assert!(matches!(&written[0], StoreWrite::InsertResumen(row) if row.id_caja == 1));
    assert!(matches!(&written[1], StoreWrite::SaveSession { id_caja: 1, .. }));
    match &written[2] {
        StoreWrite::InsertError(row) => {
            assert_eq!(row.id_caja, 2);
            assert!(
                matches!(&row.respuesta_json, RespuestaJson::Transport(m) if m == "unreachable")
            );
        }
        other => panic!("unexpected write {:?}", other),
    }
    assert!(matches!(&written[3], StoreWrite::InsertResumen(row) if row.id_caja == 3));
    assert!(matches!(&written[4], StoreWrite::SaveSession { id_caja: 3, .. }));
}

#[test]
fn sweep_goes_on_after_a_refusal() {
    let mut cajas = vec![caja(1, true), caja(2, true)];
    let refusal = decode_reply(Ok(r#"{"status":{"code":"YP-0405"}}"#.to_string()));
    let (called, written) = run(&mut cajas, vec![refusal, success()]);
    assert_eq!(called, vec![1, 2]);
    assert_eq!(cajas[0].estado, CajasEstadoEnum::Abierto);
    assert_eq!(cajas[1].estado, CajasEstadoEnum::Cerrado);
    assert_eq!(written.len(), 3);
    assert!(matches!(&written[0], StoreWrite::InsertError(row) if row.id_caja == 1));
}

#[test]
fn sweep_skips_closed_registers() {
    let mut cajas = vec![caja(1, false), caja(2, true), caja(3, false), caja(4, true)];
    let (called, written) = run(&mut cajas, vec![success(), success()]);
    assert_eq!(called, vec![2, 4]);
    assert_eq!(written.len(), 4);
    assert!(cajas.iter().all(|c| c.estado == CajasEstadoEnum::Cerrado));
    assert!(cajas.iter().all(|c| c.token_autorizacion.is_none()));
}

#[test]
fn sweep_over_nothing_ends_at_once() {
    let mut none: Vec<CajaWithCreds> = Vec::new();
    let (called, written) = run(&mut none, vec![]);
    assert!(called.is_empty());
    assert!(written.is_empty());
    let mut closed = vec![caja(1, false)];
    let (called, written) = run(&mut closed, vec![]);
    assert!(called.is_empty());
    assert!(written.is_empty());
}

#[test]
fn sweep_without_a_reply_records_a_transport_failure() {
    let mut cajas = vec![caja(1, true), caja(2, true)];
    let (called, written) = run(&mut cajas, vec![]);
    assert_eq!(called, vec![1, 2]);
    assert_eq!(written.len(), 2);
    assert!(written.iter().all(|w| matches!(w, StoreWrite::InsertError(_))));
    assert!(cajas.iter().all(|c| c.estado == CajasEstadoEnum::Abierto));
}

#[test]
fn sweep_step_past_the_end_does_nothing() {
    let mut cajas = vec![caja(1, true)];
    let step = cerrar_cajas_job(SweepStage::Closing(5), Some(success()), &mut cajas, ENDPOINT);
    assert!(step.writes.is_empty());
    assert!(matches!(step.next, Next::Done(Ok(_))));
    assert_eq!(cajas[0].estado, CajasEstadoEnum::Abierto);
}

#[test]
fn sweep_step_touches_only_its_own_register() {
    let mut cajas = vec![caja(1, true), caja(2, true), caja(3, true)];
    let step = cerrar_cajas_job(SweepStage::Closing(1), Some(success()), &mut cajas, ENDPOINT);
    assert_eq!(cajas[0].estado, CajasEstadoEnum::Abierto);
    assert_eq!(cajas[1].estado, CajasEstadoEnum::Cerrado);
    assert_eq!(cajas[2].estado, CajasEstadoEnum::Abierto);
    assert_eq!(cajas[1].nombre_caja, "Caja 2");
    assert_eq!(cajas[1].api_key, "ak-2");
    assert_eq!(cajas[1].secret_key, "sk-2");
    match step.next {
        Next::Call { resume, .. } => assert_eq!(resume, SweepStage::Closing(2)),
        other => panic!("unexpected {:?}", other),
    }
}
