//! The session state machine of a register: opening a session where none
//! is held, and closing one through the reconciliation policy.

use crate::caja::{Caja, CajaView};
use crate::device::{KioskoInfo, KioskoInfoView};
use crate::errors::{error_of, json_error, ApiError, ApiErrorView, ErrorKind};
use crate::estado::CajasEstadoEnum;
use crate::flow::{
    call_step, done_step, outcome_view, received, reply_or_failure, reply_view, Next, NextView,
    Step, StepView, Success, SuccessView,
};
use crate::gateway::{
    cerrar_caja_en_yappy, close_session_call, open_session_call, open_session_request,
};
use crate::recorder::{guardar_datos_caja, record_writes, recorded};
use crate::reply::{GatewayReply, GatewayReplyView};
use crate::store::{StoreWrite, StoreWriteView};
use crate::text::copy_opt;
use vstd::prelude::*;

verus! {

/// The token that an open-session call yields: the string at `/body/token`
/// of the body; none from a body without one, none from a transport
/// failure.
pub open spec fn open_token(reply: GatewayReplyView) -> Option<Seq<char>> {
    match reply {
        GatewayReplyView::Body(body) => body.token,
        GatewayReplyView::Transport(_) => None,
    }
}

/// The register after an open-session call that ended in `reply`: opened
/// with the token where there is one, untouched otherwise.
pub open spec fn after_open(caja: CajaView, reply: GatewayReplyView) -> CajaView {
    match open_token(reply) {
        Some(token) => caja.opened(token),
        None => caja,
    }
}

/// What an open-session call writes: the token and `Abierto` in one update
/// where there is a token, nothing otherwise.
pub open spec fn open_writes(id_caja: i32, reply: GatewayReplyView) -> Seq<StoreWriteView> {
    match open_token(reply) {
        Some(token) => seq![
            StoreWriteView::SaveSession {
                id_caja,
                token_autorizacion: Some(token),
                estado: CajasEstadoEnum::Abierto,
            },
        ],
        None => Seq::empty(),
    }
}

/// The failure of an open-session call whose body holds no token.
pub open spec fn open_failed() -> ApiErrorView {
    error_of(ErrorKind::OpenFailed, "Error al abrir la caja"@)
}

/// How an open-session call ends for the caller: with the token and the
/// body, with the transport failure, or with [`open_failed`].
pub open spec fn open_outcome(reply: GatewayReplyView) -> Result<SuccessView, ApiErrorView> {
    match reply {
        GatewayReplyView::Transport(message) => Err(error_of(ErrorKind::Transport, message)),
        GatewayReplyView::Body(body) => match body.token {
            Some(token) => Ok(
                SuccessView { token: Some(token), data: Some(body.raw), referencia: None },
            ),
            None => Err(open_failed()),
        },
    }
}

/// Applies the end of an open-session call to a register. With a token in
/// the body the register turns `Abierto` and holds it; on a transport
/// failure or a body without token nothing changes and nothing is written.
pub fn abrir_caja_and_return_value(caja: &mut Caja, reply: &GatewayReply) -> (r: (
    Vec<StoreWrite>,
    Result<Success, ApiError>,
))
    ensures
        final(caja)@ == after_open(old(caja)@, reply@),
        r.0.deep_view() == open_writes(old(caja)@.id, reply@),
        outcome_view(r.1) == open_outcome(reply@),
        old(caja)@.wf() ==> final(caja)@.wf(),
{
    let mut writes: Vec<StoreWrite> = Vec::new();
    match reply {
        GatewayReply::Transport(message) => {
            assert(writes.deep_view() =~= open_writes(caja@.id, reply@));
            (writes, Err(json_error(ErrorKind::Transport, message.as_str())))
        },
        GatewayReply::Body(body) => match &body.token {
            Some(token) => {
                writes.push(
                    StoreWrite::SaveSession {
                        id_caja: caja.id,
                        token_autorizacion: Some(token.clone()),
                        estado: CajasEstadoEnum::Abierto,
                    },
                );
                assert(writes.deep_view() =~= open_writes(caja@.id, reply@));
                caja.open_session(token.clone());
                (
                    writes,
                    Ok(
                        Success {
                            token: Some(token.clone()),
                            data: Some(body.raw.clone()),
                            referencia: None,
                        },
                    ),
                )
            },
            None => {
                assert(writes.deep_view() =~= open_writes(caja@.id, reply@));
                (writes, Err(json_error(ErrorKind::OpenFailed, "Error al abrir la caja")))
            },
        },
    }
}

/// The stages of making sure that a register is open.
#[derive(Clone, Copy, Debug, PartialEq, Eq, Structural)]
pub enum OpenStage {
    /// Nothing was done yet.
    Begin,
    /// The open-session call is out.
    Opening,
}

/// One step of making sure that a register is open. An open register is
/// left alone and its token handed back, with no call and no write. A
/// closed one gets an open-session call, whose end is applied as
/// [`after_open`], [`open_writes`] and [`open_outcome`] say.
pub open spec fn abrir_caja_step(
    stage: OpenStage,
    reply: Option<GatewayReplyView>,
    caja: CajaView,
    info: KioskoInfoView,
    endpoint: Seq<char>,
) -> (CajaView, StepView<OpenStage>) {
    match stage {
        OpenStage::Begin => if caja.estado == CajasEstadoEnum::Abierto {
            (
                caja,
                done_step(
                    Ok(
                        SuccessView {
                            token: caja.token_autorizacion,
                            data: None,
                            referencia: None,
                        },
                    ),
                ),
            )
        } else {
            (caja, call_step(open_session_call(endpoint, info), OpenStage::Opening))
        },
        OpenStage::Opening => {
            let r = reply_or_failure(reply);
            (
                after_open(caja, r),
                StepView { writes: open_writes(caja.id, r), next: NextView::Done(open_outcome(r)) },
            )
        },
    }
}

/// Takes one step of making sure that a register is open.
pub fn abrir_caja(
    stage: OpenStage,
    reply: Option<GatewayReply>,
    caja: &mut Caja,
    info: &KioskoInfo,
    endpoint: &str,
) -> (step: Step<OpenStage>)
    ensures
        (final(caja)@, step@) == abrir_caja_step(
            stage,
            reply_view(reply),
            old(caja)@,
            info@,
            endpoint@,
        ),
        old(caja)@.wf() ==> final(caja)@.wf(),
{
    match stage {
        OpenStage::Begin => {
            if caja.is_open() {
                Step {
                    writes: Vec::new(),
                    next: Next::Done(
                        Ok(
                            Success {
                                token: copy_opt(&caja.token_autorizacion),
                                data: None,
                                referencia: None,
                            },
                        ),
                    ),
                }
            } else {
                Step {
                    writes: Vec::new(),
                    next: Next::Call {
                        request: open_session_request(endpoint, info),
                        resume: OpenStage::Opening,
                    },
                }
            }
        },
        OpenStage::Opening => {
            let r = received(reply);
            let (writes, outcome) = abrir_caja_and_return_value(caja, &r);
            Step { writes, next: Next::Done(outcome) }
        },
    }
}

/// How a close attempt ends for the caller. A body is handed on whatever
/// code it carries: that the gateway refused the close is for the caller to
/// read, and is no failure of the operation. Only a transport failure is.
pub open spec fn close_outcome(reply: GatewayReplyView) -> Result<SuccessView, ApiErrorView> {
    match reply {
        GatewayReplyView::Transport(message) => Err(error_of(ErrorKind::Transport, message)),
        GatewayReplyView::Body(body) => Ok(
            SuccessView { token: None, data: Some(body.raw), referencia: None },
        ),
    }
}

/// The stages of closing a register.
#[derive(Clone, Copy, Debug, PartialEq, Eq, Structural)]
pub enum CloseStage {
    /// Nothing was done yet.
    Begin,
    /// The close-session call is out.
    Closing,
}

/// One step of closing a register. The call is made whatever the
/// register's state, with the token where one is held; its end goes
/// through the reconciliation policy.
pub open spec fn cerrar_caja_step(
    stage: CloseStage,
    reply: Option<GatewayReplyView>,
    caja: CajaView,
    info: KioskoInfoView,
    endpoint: Seq<char>,
) -> (CajaView, StepView<CloseStage>) {
    match stage {
        CloseStage::Begin => (
            caja,
            call_step(
                close_session_call(
                    endpoint,
                    info.api_key,
                    info.secret_key,
                    caja.token_autorizacion,
                ),
                CloseStage::Closing,
            ),
        ),
        CloseStage::Closing => {
            let r = reply_or_failure(reply);
            (
                recorded(caja, r),
                StepView {
                    writes: record_writes(caja.id, r),
                    next: NextView::Done(close_outcome(r)),
                },
            )
        },
    }
}

/// Takes one step of closing a register.
pub fn cerrar_caja(
    stage: CloseStage,
    reply: Option<GatewayReply>,
    caja: &mut Caja,
    info: &KioskoInfo,
    endpoint: &str,
) -> (step: Step<CloseStage>)
    ensures
        (final(caja)@, step@) == cerrar_caja_step(
            stage,
            reply_view(reply),
            old(caja)@,
            info@,
            endpoint@,
        ),
        old(caja)@.wf() ==> final(caja)@.wf(),
{
    match stage {
        CloseStage::Begin => Step {
            writes: Vec::new(),
            next: Next::Call {
                request: cerrar_caja_en_yappy(
                    endpoint,
                    info.api_key.clone(),
                    info.secret_key.clone(),
                    copy_opt(&caja.token_autorizacion),
                ),
                resume: CloseStage::Closing,
            },
        },
        CloseStage::Closing => {
            let r = received(reply);
            let writes = guardar_datos_caja(caja, &r);
            let outcome = match r {
                GatewayReply::Transport(message) => Err(
                    json_error(ErrorKind::Transport, message.as_str()),
                ),
                GatewayReply::Body(body) => Ok(
                    Success { token: None, data: Some(body.raw), referencia: None },
                ),
            };
            Step { writes, next: Next::Done(outcome) }
        },
    }
}

} // verus!
