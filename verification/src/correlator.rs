//! The outstanding charge of a register: asking the gateway about it, and
//! clearing it once the gateway reports it completed or returned.

use crate::caja::{Caja, CajaView};
use crate::device::{KioskoInfo, KioskoInfoView};
use crate::errors::{error_of, json_error, ApiError, ApiErrorView, ErrorKind};
use crate::flow::{
    call_step, done_step, received, reply_or_failure, reply_view, Next, NextView, Step, StepView,
    Success, SuccessView,
};
use crate::gateway::{transaction_call, transaction_request, RouteKind};
use crate::reply::{GatewayBody, GatewayBodyView, GatewayReply, GatewayReplyView};
use crate::store::{StoreWrite, StoreWriteView};
use crate::text::{contains, contains_text, copy_opt, same_text};
use vstd::prelude::*;

verus! {

/// The operation that a request path asks for: a status check where it
/// holds `estado-transaccion`, else a return where it holds
/// `retornar-transaccion`, else none.
pub open spec fn route_of(path: Seq<char>) -> Option<RouteKind> {
    if contains_text(path, "estado-transaccion"@) {
        Some(RouteKind::StatusCheck)
    } else if contains_text(path, "retornar-transaccion"@) {
        Some(RouteKind::Return)
    } else {
        None
    }
}

/// Computes [`route_of`].
pub fn route_kind(path: &str) -> (r: Option<RouteKind>)
    ensures
        r == route_of(path@),
{
    if contains(path, "estado-transaccion") {
        Some(RouteKind::StatusCheck)
    } else if contains(path, "retornar-transaccion") {
        Some(RouteKind::Return)
    } else {
        None
    }
}

/// Whether a body says that the transaction is over. For a status check:
/// the string at `/body/status` is `COMPLETED`. For a return: the string at
/// `/status/code` is the success code `YP-0000`.
pub open spec fn signals_completion(route: RouteKind, body: GatewayBodyView) -> bool {
    match route {
        RouteKind::StatusCheck => body.status == Some("COMPLETED"@),
        RouteKind::Return => body.code == Some("YP-0000"@),
    }
}

/// Whether the answer to a request under `path` ends the outstanding
/// charge: the path names an operation, and the body signals completion
/// for it.
pub open spec fn completes(path: Seq<char>, body: GatewayBodyView) -> bool {
    match route_of(path) {
        Some(route) => signals_completion(route, body),
        None => false,
    }
}

/// Computes [`signals_completion`].
pub fn is_completion(route: RouteKind, body: &GatewayBody) -> (r: bool)
    ensures
        r == signals_completion(route, body@),
{
    match route {
        RouteKind::StatusCheck => match &body.status {
            Some(status) => same_text(status.as_str(), "COMPLETED"),
            None => false,
        },
        RouteKind::Return => match &body.code {
            Some(code) => same_text(code.as_str(), "YP-0000"),
            None => false,
        },
    }
}

/// Clears the register's outstanding charge where the body signals
/// completion, and returns the charge that was held: the reference to show
/// to the caller. Without the signal nothing changes and `None` is
/// returned; `None` is also returned where the signal comes and nothing was
/// outstanding.
pub fn resolve(route: RouteKind, body: &GatewayBody, caja: &mut Caja) -> (r: Option<String>)
    ensures
        signals_completion(route, body@) ==> r.deep_view() == old(caja)@.transaccion_actual
            && final(caja)@ == old(caja)@.cleared(),
        !signals_completion(route, body@) ==> r.is_none() && final(caja)@ == old(caja)@,
        old(caja)@.wf() ==> final(caja)@.wf(),
{
    if is_completion(route, body) {
        caja.update_caja_transaccion_actual_null()
    } else {
        None
    }
}

/// The register after the answer to a request under `path`.
pub open spec fn resolved(caja: CajaView, path: Seq<char>, body: GatewayBodyView) -> CajaView {
    if completes(path, body) {
        caja.cleared()
    } else {
        caja
    }
}

/// The reference that the answer to a request under `path` yields.
pub open spec fn reference_of(caja: CajaView, path: Seq<char>, body: GatewayBodyView) -> Option<
    Seq<char>,
> {
    if completes(path, body) {
        caja.transaccion_actual
    } else {
        None
    }
}

fn settle(path: &str, body: &GatewayBody, caja: &mut Caja) -> (r: (bool, Option<String>))
    ensures
        r.0 == completes(path@, body@),
        r.1.deep_view() == reference_of(old(caja)@, path@, body@),
        final(caja)@ == resolved(old(caja)@, path@, body@),
        old(caja)@.wf() ==> final(caja)@.wf(),
{
    match route_kind(path) {
        Some(route) => {
            let completed = is_completion(route, body);
            (completed, resolve(route, body, caja))
        },
        None => (false, None),
    }
}

/// [`resolve`] for the operation that `path` names; a path that names none
/// changes nothing.
pub fn manage_transaction_response(path: &str, body: &GatewayBody, caja: &mut Caja) -> (r: Option<
    String,
>)
    ensures
        r.deep_view() == reference_of(old(caja)@, path@, body@),
        final(caja)@ == resolved(old(caja)@, path@, body@),
        old(caja)@.wf() ==> final(caja)@.wf(),
{
    settle(path, body, caja).1
}

/// The failure of asking about a charge where none is outstanding.
pub open spec fn no_active_transaction() -> ApiErrorView {
    error_of(
        ErrorKind::NoActiveTransaction,
        "Actualmente no hay transacción activa en esta caja"@,
    )
}

/// The register's outstanding charge, for the request path that asks about
/// it. Fails with [`no_active_transaction`] exactly where none is held.
pub fn current_transaction(caja: &Caja) -> (r: Result<String, ApiError>)
    ensures
        match r {
            Ok(id) => caja@.transaccion_actual == Some(id@),
            Err(error) => caja@.transaccion_actual.is_none() && error@ == no_active_transaction(),
        },
{
    match &caja.transaccion_actual {
        Some(id) => Ok(id.clone()),
        None => Err(
            json_error(
                ErrorKind::NoActiveTransaction,
                "Actualmente no hay transacción activa en esta caja",
            ),
        ),
    }
}

/// What the answer to a request under `path` writes: the cleared charge
/// where it completes, nothing otherwise.
pub open spec fn resolve_writes(id_caja: i32, path: Seq<char>, body: GatewayBodyView) -> Seq<
    StoreWriteView,
> {
    if completes(path, body) {
        seq![StoreWriteView::SaveTransaction { id_caja, transaccion_actual: None }]
    } else {
        Seq::empty()
    }
}

/// The stages of a status check or a return.
#[derive(Clone, Copy, Debug, PartialEq, Eq, Structural)]
pub enum TxStage {
    /// Nothing was done yet.
    Begin,
    /// The transaction call is out.
    Resolving,
}

/// One step of a status check or a return. At the beginning: without an
/// outstanding charge the operation fails with [`no_active_transaction`];
/// with one, a path that names no operation fails as an invalid route, and
/// otherwise the call goes out. With the reply: a transport failure ends
/// the operation; a body is handed on, with the reference where it
/// completes the charge.
pub open spec fn handle_transaccion_step(
    stage: TxStage,
    reply: Option<GatewayReplyView>,
    caja: CajaView,
    info: KioskoInfoView,
    endpoint: Seq<char>,
    path: Seq<char>,
) -> (CajaView, StepView<TxStage>) {
    match stage {
        TxStage::Begin => match caja.transaccion_actual {
            None => (caja, done_step(Err(no_active_transaction()))),
            Some(id) => match route_of(path) {
                None => (
                    caja,
                    done_step(Err(error_of(ErrorKind::InvalidRoute, "Ruta invalida"@))),
                ),
                Some(route) => (
                    caja,
                    call_step(
                        transaction_call(endpoint, info, caja.token_autorizacion, id, route),
                        TxStage::Resolving,
                    ),
                ),
            },
        },
        TxStage::Resolving => match reply_or_failure(reply) {
            GatewayReplyView::Transport(message) => (
                caja,
                done_step(Err(error_of(ErrorKind::Transport, message))),
            ),
            GatewayReplyView::Body(body) => (
                resolved(caja, path, body),
                StepView {
                    writes: resolve_writes(caja.id, path, body),
                    next: NextView::Done(
                        Ok(
                            SuccessView {
                                token: None,
                                data: Some(body.raw),
                                referencia: reference_of(caja, path, body),
                            },
                        ),
                    ),
                },
            ),
        },
    }
}

/// Takes one step of a status check or a return.
pub fn handle_transaccion(
    stage: TxStage,
    reply: Option<GatewayReply>,
    caja: &mut Caja,
    info: &KioskoInfo,
    endpoint: &str,
    path: &str,
) -> (step: Step<TxStage>)
    ensures
        (final(caja)@, step@) == handle_transaccion_step(
            stage,
            reply_view(reply),
            old(caja)@,
            info@,
            endpoint@,
            path@,
        ),
        old(caja)@.wf() ==> final(caja)@.wf(),
{
    match stage {
        TxStage::Begin => {
            let id = match current_transaction(caja) {
                Ok(id) => id,
                Err(error) => {
                    return Step { writes: Vec::new(), next: Next::Done(Err(error)) };
                },
            };
            match route_kind(path) {
                None => Step {
                    writes: Vec::new(),
                    next: Next::Done(Err(json_error(ErrorKind::InvalidRoute, "Ruta invalida"))),
                },
                Some(route) => Step {
                    writes: Vec::new(),
                    next: Next::Call {
                        request: transaction_request(
                            endpoint,
                            info,
                            copy_opt(&caja.token_autorizacion),
                            id.as_str(),
                            route,
                        ),
                        resume: TxStage::Resolving,
                    },
                },
            }
        },
        TxStage::Resolving => match received(reply) {
            GatewayReply::Transport(message) => Step {
                writes: Vec::new(),
                next: Next::Done(Err(json_error(ErrorKind::Transport, message.as_str()))),
            },
            GatewayReply::Body(body) => {
                let id_caja = caja.id;
                let (completed, referencia) = settle(path, &body, caja);
                let mut writes: Vec<StoreWrite> = Vec::new();
                if completed {
                    writes.push(StoreWrite::SaveTransaction { id_caja, transaccion_actual: None });
                }
                assert(writes.deep_view() =~= resolve_writes(id_caja, path@, body@));
                Step {
                    writes,
                    next: Next::Done(
                        Ok(Success { token: None, data: Some(body.raw), referencia }),
                    ),
                }
            },
        },
    }
}

} // verus!
