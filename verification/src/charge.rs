//! Generating a charge: the register is opened first where it is closed,
//! and the transaction that the gateway issues becomes the register's
//! outstanding charge.

use crate::caja::{Caja, CajaView};
use crate::device::{KioskoInfo, KioskoInfoView};
use crate::errors::{error_of, json_error, ErrorKind};
use crate::estado::CajasEstadoEnum;
use crate::flow::{
    call_step, done_step, received, reply_or_failure, reply_view, Next, NextView, Step, StepView,
    Success, SuccessView,
};
use crate::gateway::{charge_call, charge_request, open_session_call, open_session_request};
use crate::payload::GenerarQR;
use crate::reply::{GatewayReply, GatewayReplyView};
use crate::session::{abrir_caja_and_return_value, open_failed, open_token, open_writes};
use crate::store::{StoreWrite, StoreWriteView};
use crate::text::copy_opt;
use vstd::prelude::*;

verus! {

/// The stages of generating a charge.
#[derive(Clone, Copy, Debug, PartialEq, Eq, Structural)]
pub enum QrStage {
    /// Nothing was done yet.
    Begin,
    /// The register was closed, and the open-session call is out.
    Opening,
    /// The charge call is out.
    Charging,
}

/// The register after the answer to a charge call: the transaction at
/// `/body/transactionId` is its outstanding charge. An answer without one
/// registers nothing, and what was outstanding stays so.
pub open spec fn after_charge(caja: CajaView, transaction_id: Option<Seq<char>>) -> CajaView {
    match transaction_id {
        Some(id) => caja.registered(id),
        None => caja,
    }
}

/// What the answer to a charge call writes: the transaction that it
/// registers; nothing where it registers none.
pub open spec fn charge_writes(id_caja: i32, transaction_id: Option<Seq<char>>) -> Seq<
    StoreWriteView,
> {
    match transaction_id {
        Some(id) => seq![StoreWriteView::SaveTransaction { id_caja, transaccion_actual: Some(id) }],
        None => Seq::empty(),
    }
}

/// One step of generating a charge.
///
/// At the beginning an open register goes straight to the charge call,
/// with its token; a closed one gets an open-session call first. Where
/// that call yields a token, the register turns `Abierto` and the charge
/// call goes out with the new token; where it yields none, the operation
/// fails with [`open_failed`] and the register stays as it was. The answer
/// to the charge call is handed on, and the transaction that it carries is
/// registered; an answer that carries none, and a transport failure,
/// register nothing and leave what was outstanding.
pub open spec fn generar_qr_step(
    stage: QrStage,
    reply: Option<GatewayReplyView>,
    caja: CajaView,
    info: KioskoInfoView,
    endpoint: Seq<char>,
    charge: GenerarQR,
) -> (CajaView, StepView<QrStage>) {
    match stage {
        QrStage::Begin => if caja.estado == CajasEstadoEnum::Abierto {
            (
                caja,
                call_step(
                    charge_call(endpoint, info, caja.token_autorizacion, charge),
                    QrStage::Charging,
                ),
            )
        } else {
            (caja, call_step(open_session_call(endpoint, info), QrStage::Opening))
        },
        QrStage::Opening => {
            let r = reply_or_failure(reply);
            match open_token(r) {
                Some(token) => (
                    caja.opened(token),
                    StepView {
                        writes: open_writes(caja.id, r),
                        next: NextView::Call {
                            request: charge_call(endpoint, info, Some(token), charge),
                            resume: QrStage::Charging,
                        },
                    },
                ),
                None => (caja, done_step(Err(open_failed()))),
            }
        },
        QrStage::Charging => match reply_or_failure(reply) {
            GatewayReplyView::Transport(message) => (
                caja,
                done_step(Err(error_of(ErrorKind::Transport, message))),
            ),
            GatewayReplyView::Body(body) => (
                after_charge(caja, body.transaction_id),
                StepView {
                    writes: charge_writes(caja.id, body.transaction_id),
                    next: NextView::Done(
                        Ok(SuccessView { token: None, data: Some(body.raw), referencia: None }),
                    ),
                },
            ),
        },
    }
}

/// Takes one step of generating a charge.
pub fn generar_qr(
    stage: QrStage,
    reply: Option<GatewayReply>,
    caja: &mut Caja,
    info: &KioskoInfo,
    endpoint: &str,
    charge: &GenerarQR,
) -> (step: Step<QrStage>)
    ensures
        (final(caja)@, step@) == generar_qr_step(
            stage,
            reply_view(reply),
            old(caja)@,
            info@,
            endpoint@,
            *charge,
        ),
        old(caja)@.wf() ==> final(caja)@.wf(),
{
    match stage {
        QrStage::Begin => {
            let request = if caja.is_open() {
                Next::Call {
                    request: charge_request(
                        endpoint,
                        info,
                        copy_opt(&caja.token_autorizacion),
                        charge,
                    ),
                    resume: QrStage::Charging,
                }
            } else {
                Next::Call {
                    request: open_session_request(endpoint, info),
                    resume: QrStage::Opening,
                }
            };
            Step { writes: Vec::new(), next: request }
        },
        QrStage::Opening => {
            let r = received(reply);
            let (writes, outcome) = abrir_caja_and_return_value(caja, &r);
            match outcome {
                Ok(opened) => Step {
                    writes,
                    next: Next::Call {
                        request: charge_request(endpoint, info, opened.token, charge),
                        resume: QrStage::Charging,
                    },
                },
                Err(_) => Step {
                    writes,
                    next: Next::Done(
                        Err(json_error(ErrorKind::OpenFailed, "Error al abrir la caja")),
                    ),
                },
            }
        },
        QrStage::Charging => match received(reply) {
            GatewayReply::Transport(message) => Step {
                writes: Vec::new(),
                next: Next::Done(Err(json_error(ErrorKind::Transport, message.as_str()))),
            },
            GatewayReply::Body(body) => {
                let mut writes: Vec<StoreWrite> = Vec::new();
                if let Some(id) = &body.transaction_id {
                    writes.push(
                        StoreWrite::SaveTransaction {
                            id_caja: caja.id,
                            transaccion_actual: Some(id.clone()),
                        },
                    );
                    caja.register_transaction(id.clone());
                }
                assert(writes.deep_view() =~= charge_writes(old(caja)@.id, body@.transaction_id));
                Step {
                    writes,
                    next: Next::Done(
                        Ok(Success { token: None, data: Some(body.raw), referencia: None }),
                    ),
                }
            },
        },
    }
}

} // verus!
