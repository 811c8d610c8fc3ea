//! What holds of a register over any run of the orchestrator's operations.

use crate::caja::CajaView;
use crate::charge::{generar_qr_step, QrStage};
use crate::correlator::{
    completes, handle_transaccion_step, resolved, signals_completion, TxStage,
};
use crate::device::KioskoInfoView;
use crate::errors::ApiErrorView;
use crate::estado::CajasEstadoEnum;
use crate::flow::{reply_or_failure, NextView, SuccessView};
use crate::gateway::{GatewayRequestView, RouteKind};
use crate::payload::GenerarQR;
use crate::recorder::{closes, record_writes, recorded, summary_rows};
use crate::reply::{GatewayBodyView, GatewayReplyView};
use crate::session::{
    abrir_caja_step, after_open, cerrar_caja_step, open_writes, CloseStage, OpenStage,
};
use crate::store::StoreWriteView;
use crate::sweep::{
    cerrar_cajas_job_step, lemma_next_open_is_first, next_open, sweep_next, CajaWithCredsView,
    SweepStage,
};
use vstd::prelude::*;

verus! {

/// One change to a register through the library, with all that it is given:
/// a step of one of the four operations, or one of the transitions that the
/// operations are made of.
pub enum Operation {
    /// A step of `abrir_caja`.
    AbrirCaja {
        stage: OpenStage,
        reply: Option<GatewayReplyView>,
        info: KioskoInfoView,
        endpoint: Seq<char>,
    },
    /// A step of `generar_qr`.
    GenerarQr {
        stage: QrStage,
        reply: Option<GatewayReplyView>,
        info: KioskoInfoView,
        endpoint: Seq<char>,
        charge: GenerarQR,
    },
    /// A step of `cerrar_caja`.
    CerrarCaja {
        stage: CloseStage,
        reply: Option<GatewayReplyView>,
        info: KioskoInfoView,
        endpoint: Seq<char>,
    },
    /// A step of `handle_transaccion`.
    HandleTransaccion {
        stage: TxStage,
        reply: Option<GatewayReplyView>,
        info: KioskoInfoView,
        endpoint: Seq<char>,
        path: Seq<char>,
    },
    /// `abrir_caja_and_return_value`.
    Opened { reply: GatewayReplyView },
    /// `guardar_datos_caja`.
    Recorded { reply: GatewayReplyView },
    /// `Caja::register_transaction`.
    Registered { id: Seq<char> },
    /// `resolve`.
    Resolved { route: RouteKind, body: GatewayBodyView },
    /// `manage_transaction_response`.
    Managed { path: Seq<char>, body: GatewayBodyView },
    /// `Caja::update_caja_transaccion_actual_null`.
    Cleared,
    /// `Caja::open_session`.
    SessionOpened { token: Seq<char> },
    /// `Caja::close_session`.
    SessionClosed,
}

/// The register after one change.
pub open spec fn after(caja: CajaView, op: Operation) -> CajaView {
    match op {
        Operation::AbrirCaja { stage, reply, info, endpoint } => abrir_caja_step(
            stage,
            reply,
            caja,
            info,
            endpoint,
        ).0,
        Operation::GenerarQr { stage, reply, info, endpoint, charge } => generar_qr_step(
            stage,
            reply,
            caja,
            info,
            endpoint,
            charge,
        ).0,
        Operation::CerrarCaja { stage, reply, info, endpoint } => cerrar_caja_step(
            stage,
            reply,
            caja,
            info,
            endpoint,
        ).0,
        Operation::HandleTransaccion { stage, reply, info, endpoint, path } => {
            handle_transaccion_step(stage, reply, caja, info, endpoint, path).0
        },
        Operation::Opened { reply } => after_open(caja, reply),
        Operation::Recorded { reply } => recorded(caja, reply),
        Operation::Registered { id } => caja.registered(id),
        Operation::Resolved { route, body } => if signals_completion(route, body) {
            caja.cleared()
        } else {
            caja
        },
        Operation::Managed { path, body } => resolved(caja, path, body),
        Operation::Cleared => caja.cleared(),
        Operation::SessionOpened { token } => caja.opened(token),
        Operation::SessionClosed => caja.closed(),
    }
}

/// What one change writes to the store. The bare transitions of a register
/// write nothing: they are for a caller that does its own writing.
pub open spec fn writes_of(caja: CajaView, op: Operation) -> Seq<StoreWriteView> {
    match op {
        Operation::AbrirCaja { stage, reply, info, endpoint } => abrir_caja_step(
            stage,
            reply,
            caja,
            info,
            endpoint,
        ).1.writes,
        Operation::GenerarQr { stage, reply, info, endpoint, charge } => generar_qr_step(
            stage,
            reply,
            caja,
            info,
            endpoint,
            charge,
        ).1.writes,
        Operation::CerrarCaja { stage, reply, info, endpoint } => cerrar_caja_step(
            stage,
            reply,
            caja,
            info,
            endpoint,
        ).1.writes,
        Operation::HandleTransaccion { stage, reply, info, endpoint, path } => {
            handle_transaccion_step(stage, reply, caja, info, endpoint, path).1.writes
        },
        Operation::Opened { reply } => open_writes(caja.id, reply),
        Operation::Recorded { reply } => record_writes(caja.id, reply),
        _ => Seq::empty(),
    }
}

/// The register after a run of changes, first to last.
pub open spec fn after_all(caja: CajaView, ops: Seq<Operation>) -> CajaView
    decreases ops.len(),
{
    if ops.len() == 0 {
        caja
    } else {
        after(after_all(caja, ops.drop_last()), ops.last())
    }
}

/// A register that holds a token exactly while it is `Abierto` still does
/// so after any change.
pub proof fn lemma_change_keeps_session_invariant(caja: CajaView, op: Operation)
    requires
        caja.wf(),
    ensures
        after(caja, op).wf(),
{
}

/// A register that holds a token exactly while it is `Abierto` still does
/// so after any run of changes.
pub proof fn lemma_session_invariant(caja: CajaView, ops: Seq<Operation>)
    requires
        caja.wf(),
    ensures
        after_all(caja, ops).wf(),
    decreases ops.len(),
{
    if ops.len() > 0 {
        lemma_session_invariant(caja, ops.drop_last());
        lemma_change_keeps_session_invariant(after_all(caja, ops.drop_last()), ops.last());
    }
}

/// Every write that a change asks for keeps the invariant in the store: a
/// session update stores a token exactly with `Abierto`.
pub proof fn lemma_writes_keep_session_invariant(caja: CajaView, op: Operation, i: int)
    requires
        0 <= i < writes_of(caja, op).len(),
    ensures
        writes_of(caja, op)[i].keeps_session_invariant(),
{
}

/// The outstanding charge that a change registers: what is handed to
/// `register_transaction`, or the transaction that the answer to a charge
/// call carries. `None` for a change that registers nothing, as does an
/// answer to a charge call that carries no transaction.
pub open spec fn registered_by(op: Operation) -> Option<Seq<char>> {
    match op {
        Operation::Registered { id } => Some(id),
        Operation::GenerarQr { stage: QrStage::Charging, reply, .. } => match reply_or_failure(
            reply,
        ) {
            GatewayReplyView::Body(body) => body.transaction_id,
            GatewayReplyView::Transport(_) => None,
        },
        _ => None,
    }
}

/// Whether a change resolves the outstanding charge: it clears it, or it
/// is the answer to a transaction call and completes it.
pub open spec fn resolved_by(op: Operation) -> bool {
    match op {
        Operation::Cleared => true,
        Operation::Resolved { route, body } => signals_completion(route, body),
        Operation::Managed { path, body } => completes(path, body),
        Operation::HandleTransaccion { stage: TxStage::Resolving, reply, path, .. } => {
            match reply_or_failure(reply) {
                GatewayReplyView::Body(body) => completes(path, body),
                GatewayReplyView::Transport(_) => false,
            }
        },
        _ => false,
    }
}

/// Whether none of the changes from position `from` on registers or
/// resolves a charge.
pub open spec fn untouched_from(ops: Seq<Operation>, from: int) -> bool {
    forall|j: int|
        from <= j < ops.len() ==> registered_by(#[trigger] ops[j]).is_none() && !resolved_by(
            ops[j],
        )
}

/// Whether `x` was registered at position `i` of a run and no later change
/// registered or resolved anything.
pub open spec fn last_registered_at(ops: Seq<Operation>, i: int, x: Seq<char>) -> bool {
    0 <= i < ops.len() && registered_by(ops[i]) == Some(x) && untouched_from(ops, i + 1)
}

/// A change that neither registers nor resolves leaves the outstanding
/// charge as it was; one that registers stores what it registers; one that
/// resolves leaves nothing outstanding.
pub proof fn lemma_change_on_transaction(caja: CajaView, op: Operation)
    ensures
        registered_by(op).is_some() ==> after(caja, op).transaccion_actual == registered_by(op),
        resolved_by(op) ==> after(caja, op).transaccion_actual.is_none(),
        registered_by(op).is_none() && !resolved_by(op) ==> after(caja, op).transaccion_actual
            == caja.transaccion_actual,
{
}

/// An outstanding charge is cleared only by its resolution: a change after
/// which nothing is outstanding, where something was, resolves it. No
/// answer to a charge call, no opening and no closing clears it.
pub proof fn lemma_only_resolution_clears(caja: CajaView, op: Operation)
    requires
        caja.transaccion_actual.is_some(),
        after(caja, op).transaccion_actual.is_none(),
    ensures
        resolved_by(op),
{
}

/// Whatever is outstanding after a run of changes was registered by one of
/// them and neither overwritten nor resolved since; or it was outstanding
/// before the run, and no change of the run registered or resolved
/// anything.
pub proof fn lemma_outstanding_is_last_registered(
    caja: CajaView,
    ops: Seq<Operation>,
    x: Seq<char>,
)
    requires
        after_all(caja, ops).transaccion_actual == Some(x),
    ensures
        (exists|i: int| last_registered_at(ops, i, x)) || (caja.transaccion_actual == Some(x)
            && untouched_from(ops, 0)),
    decreases ops.len(),
{
    if ops.len() > 0 {
        let before = ops.drop_last();
        let op = ops.last();
        let last = ops.len() - 1;
        lemma_change_on_transaction(after_all(caja, before), op);
        if registered_by(op).is_some() {
            assert(last_registered_at(ops, last, x));
        } else {
            lemma_outstanding_is_last_registered(caja, before, x);
            if exists|i: int| last_registered_at(before, i, x) {
                let i = choose|i: int| last_registered_at(before, i, x);
                assert forall|j: int| i + 1 <= j < ops.len() implies registered_by(
                    #[trigger] ops[j],
                ).is_none() && !resolved_by(ops[j]) by {
                    if j < last {
                        assert(ops[j] == before[j]);
                    }
                }
                assert(ops[i] == before[i]);
                assert(last_registered_at(ops, i, x));
            } else {
                assert forall|j: int| 0 <= j < ops.len() implies registered_by(
                    #[trigger] ops[j],
                ).is_none() && !resolved_by(ops[j]) by {
                    if j < last {
                        assert(ops[j] == before[j]);
                    }
                }
            }
        }
    }
}

/// On a register that began with nothing outstanding, whatever is
/// outstanding after a run of changes was registered by one of them and
/// neither overwritten nor resolved since.
pub proof fn lemma_outstanding_was_registered(caja: CajaView, ops: Seq<Operation>, x: Seq<char>)
    requires
        caja.transaccion_actual.is_none(),
        after_all(caja, ops).transaccion_actual == Some(x),
    ensures
        exists|i: int| last_registered_at(ops, i, x),
{
    lemma_outstanding_is_last_registered(caja, ops, x);
}

/// A whole operation, from its first step to its end: the register after
/// it, what it wrote, the calls it made, and how it ended.
pub struct Run {
    pub caja: CajaView,
    pub writes: Seq<StoreWriteView>,
    pub calls: Seq<GatewayRequestView>,
    pub outcome: Result<SuccessView, ApiErrorView>,
}

/// Making sure that a register is open, run to its end; `reply` is what
/// the gateway answers if it is called.
pub open spec fn ensure_open_run(
    caja: CajaView,
    reply: Option<GatewayReplyView>,
    info: KioskoInfoView,
    endpoint: Seq<char>,
) -> Run {
    let (c0, first) = abrir_caja_step(OpenStage::Begin, None, caja, info, endpoint);
    match first.next {
        NextView::Done(outcome) => Run {
            caja: c0,
            writes: first.writes,
            calls: Seq::empty(),
            outcome,
        },
        NextView::Call { request, resume } => {
            let (c1, second) = abrir_caja_step(resume, reply, c0, info, endpoint);
            Run {
                caja: c1,
                writes: first.writes + second.writes,
                calls: seq![request],
                outcome: second.next->Done_0,
            }
        },
    }
}

/// Once a closed register was opened with success, making sure again that
/// it is open does nothing: no call, no write, the register as it is, and
/// the same token handed back.
pub proof fn lemma_ensure_open_twice(
    caja: CajaView,
    first_reply: Option<GatewayReplyView>,
    second_reply: Option<GatewayReplyView>,
    info: KioskoInfoView,
    endpoint: Seq<char>,
)
    requires
        caja.estado == CajasEstadoEnum::Cerrado,
        ensure_open_run(caja, first_reply, info, endpoint).outcome.is_ok(),
    ensures
        ({
            let first = ensure_open_run(caja, first_reply, info, endpoint);
            let second = ensure_open_run(first.caja, second_reply, info, endpoint);
            &&& first.outcome->Ok_0.token.is_some()
            &&& first.caja.token_autorizacion == first.outcome->Ok_0.token
            &&& second.calls.len() == 0
            &&& second.writes.len() == 0
            &&& second.caja == first.caja
            &&& second.outcome == Ok::<SuccessView, ApiErrorView>(
                SuccessView { token: first.outcome->Ok_0.token, data: None, referencia: None },
            )
        }),
{
}

/// The sweep from a point on, run to its end: `next` is what the last step
/// asked for, and `replies[k]` is what the gateway answers to the next
/// call. Gives the registers after the sweep and all that it wrote.
pub open spec fn sweep_from(
    cajas: Seq<CajaWithCredsView>,
    next: NextView<SweepStage>,
    replies: Seq<GatewayReplyView>,
    k: int,
    endpoint: Seq<char>,
) -> (Seq<CajaWithCredsView>, Seq<StoreWriteView>)
    decreases replies.len() - k,
{
    match next {
        NextView::Done(_) => (cajas, Seq::empty()),
        NextView::Call { resume, .. } => if 0 <= k < replies.len() {
            let (after, step) = cerrar_cajas_job_step(resume, Some(replies[k]), cajas, endpoint);
            let (last, writes) = sweep_from(after, step.next, replies, k + 1, endpoint);
            (last, step.writes + writes)
        } else {
            (cajas, Seq::empty())
        },
    }
}

/// The whole sweep over `cajas`, where `replies[k]` answers the `k`-th
/// call.
pub open spec fn sweep_run(
    cajas: Seq<CajaWithCredsView>,
    replies: Seq<GatewayReplyView>,
    endpoint: Seq<char>,
) -> (Seq<CajaWithCredsView>, Seq<StoreWriteView>) {
    let (c0, first) = cerrar_cajas_job_step(SweepStage::Begin, None, cajas, endpoint);
    let (last, writes) = sweep_from(c0, first.next, replies, 0, endpoint);
    (last, first.writes + writes)
}

/// Every register reconciled by its own reply.
pub open spec fn each_recorded(
    cajas: Seq<CajaWithCredsView>,
    replies: Seq<GatewayReplyView>,
) -> Seq<CajaWithCredsView> {
    Seq::new(cajas.len(), |i: int| cajas[i].recorded(replies[i]))
}

/// What the registers from position `i` on write, each reconciled by its
/// own reply, in order.
pub open spec fn each_written(
    cajas: Seq<CajaWithCredsView>,
    replies: Seq<GatewayReplyView>,
    i: int,
) -> Seq<StoreWriteView>
    decreases cajas.len() - i,
{
    if 0 <= i < cajas.len() {
        record_writes(cajas[i].id, replies[i]) + each_written(cajas, replies, i + 1)
    } else {
        Seq::empty()
    }
}

/// Whether every register is `Abierto`.
pub open spec fn all_open(cajas: Seq<CajaWithCredsView>) -> bool {
    forall|i: int| 0 <= i < cajas.len() ==> (#[trigger] cajas[i]).estado == CajasEstadoEnum::Abierto
}

proof fn lemma_sweep_from(
    cajas: Seq<CajaWithCredsView>,
    now: Seq<CajaWithCredsView>,
    replies: Seq<GatewayReplyView>,
    i: int,
    endpoint: Seq<char>,
)
    requires
        all_open(cajas),
        replies.len() == cajas.len(),
        now.len() == cajas.len(),
        0 <= i <= cajas.len(),
        cajas.len() <= usize::MAX,
        forall|j: int| 0 <= j < i ==> now[j] == (#[trigger] cajas[j]).recorded(replies[j]),
        forall|j: int| i <= j < cajas.len() ==> now[j] == #[trigger] cajas[j],
    ensures
        sweep_from(now, sweep_next(now, i, endpoint), replies, i, endpoint) == (
            each_recorded(cajas, replies),
            each_written(cajas, replies, i),
        ),
    decreases cajas.len() - i,
{
    if i == cajas.len() {
        assert(next_open(now, i) == now.len());
        assert(now =~= each_recorded(cajas, replies));
    } else {
        assert(now[i] == cajas[i]);
        let after = now.update(i, now[i].recorded(replies[i]));
        lemma_sweep_from(cajas, after, replies, i + 1, endpoint);
    }
}

/// A sweep over open registers reconciles every one of them by its own
/// reply, whatever the other replies are: a call that fails leaves one
/// error row for its register and stops nothing.
pub proof fn lemma_sweep_isolates_failures(
    cajas: Seq<CajaWithCredsView>,
    replies: Seq<GatewayReplyView>,
    endpoint: Seq<char>,
)
    requires
        all_open(cajas),
        replies.len() == cajas.len(),
        cajas.len() <= usize::MAX,
    ensures
        sweep_run(cajas, replies, endpoint) == (
            each_recorded(cajas, replies),
            each_written(cajas, replies, 0),
        ),
{
    lemma_sweep_from(cajas, cajas, replies, 0, endpoint);
    assert(Seq::<StoreWriteView>::empty() + each_written(cajas, replies, 0) =~= each_written(
        cajas,
        replies,
        0,
    ));
}

/// A close attempt has one of two outcomes. It closes the register and
/// writes one summary row per line of the body's summary (none where the
/// body has no summary), then the closed session. Or it leaves the
/// register as it was and writes exactly one error row.
pub proof fn lemma_close_attempt_outcome(caja: CajaView, reply: GatewayReplyView)
    ensures
        closes(reply) ==> {
            &&& recorded(caja, reply) == caja.closed()
            &&& record_writes(caja.id, reply).len() == summary_rows(
                caja.id,
                reply->Body_0.summary,
            ).len() + 1
            &&& reply->Body_0.summary.is_some() ==> summary_rows(
                caja.id,
                reply->Body_0.summary,
            ).len() == reply->Body_0.summary.unwrap().len()
            &&& reply->Body_0.summary.is_none() ==> record_writes(caja.id, reply).len() == 1
            &&& forall|i: int|
                0 <= i < record_writes(caja.id, reply).len() - 1 ==> (#[trigger] record_writes(
                    caja.id,
                    reply,
                )[i]) is InsertResumen
            &&& record_writes(caja.id, reply).last() is SaveSession
        },
        !closes(reply) ==> {
            &&& recorded(caja, reply) == caja
            &&& record_writes(caja.id, reply).len() == 1
            &&& record_writes(caja.id, reply)[0] is InsertError
        },
{
}

/// The interactive close and the sweep reconcile alike: for the same
/// register and the same reply they ask for the same writes and leave the
/// same session.
pub proof fn lemma_one_reconciliation_policy(
    caja: CajaView,
    info: KioskoInfoView,
    endpoint: Seq<char>,
    cajas: Seq<CajaWithCredsView>,
    i: int,
    sweep_endpoint: Seq<char>,
    reply: Option<GatewayReplyView>,
)
    requires
        0 <= i < cajas.len() <= usize::MAX,
        cajas[i].id == caja.id,
        cajas[i].estado == caja.estado,
        cajas[i].token_autorizacion == caja.token_autorizacion,
    ensures
        ({
            let interactive = cerrar_caja_step(CloseStage::Closing, reply, caja, info, endpoint);
            let swept = cerrar_cajas_job_step(
                SweepStage::Closing(i as usize),
                reply,
                cajas,
                sweep_endpoint,
            );
            &&& interactive.1.writes == swept.1.writes
            &&& interactive.0.estado == swept.0[i].estado
            &&& interactive.0.token_autorizacion == swept.0[i].token_autorizacion
        }),
{
}

/// The registers after one step of the sweep.
pub open spec fn cajas_after_sweep_step(
    stage: SweepStage,
    reply: Option<GatewayReplyView>,
    cajas: Seq<CajaWithCredsView>,
    endpoint: Seq<char>,
) -> Seq<CajaWithCredsView> {
    cerrar_cajas_job_step(stage, reply, cajas, endpoint).0
}

/// Whether every register obeys the session invariant.
pub open spec fn all_wf(cajas: Seq<CajaWithCredsView>) -> bool {
    forall|i: int| 0 <= i < cajas.len() ==> (#[trigger] cajas[i]).wf()
}

/// Registers that hold a token exactly while they are `Abierto` still do
/// so after any step of the sweep, and so does the store after the step's
/// writes.
pub proof fn lemma_sweep_keeps_session_invariant(
    stage: SweepStage,
    reply: Option<GatewayReplyView>,
    cajas: Seq<CajaWithCredsView>,
    endpoint: Seq<char>,
)
    requires
        all_wf(cajas),
    ensures
        all_wf(cajas_after_sweep_step(stage, reply, cajas, endpoint)),
        forall|i: int|
            0 <= i < cerrar_cajas_job_step(stage, reply, cajas, endpoint).1.writes.len() ==> (
            #[trigger] cerrar_cajas_job_step(
                stage,
                reply,
                cajas,
                endpoint,
            ).1.writes[i]).keeps_session_invariant(),
{
}

/// An operation on a register is over after at most two calls: a step
/// that asks for a call resumes at a later stage, and the last stage of
/// each operation asks for none.
pub proof fn lemma_operations_end(caja: CajaView, op: Operation)
    ensures
        match op {
            Operation::AbrirCaja { stage, reply, info, endpoint } => {
                let next = abrir_caja_step(stage, reply, caja, info, endpoint).1.next;
                next is Call ==> stage == OpenStage::Begin && next->Call_resume
                    == OpenStage::Opening
            },
            Operation::GenerarQr { stage, reply, info, endpoint, charge } => {
                let next = generar_qr_step(stage, reply, caja, info, endpoint, charge).1.next;
                next is Call ==> stage != QrStage::Charging && next->Call_resume != QrStage::Begin
                    && next->Call_resume != stage
            },
            Operation::CerrarCaja { stage, reply, info, endpoint } => {
                let next = cerrar_caja_step(stage, reply, caja, info, endpoint).1.next;
                next is Call ==> stage == CloseStage::Begin && next->Call_resume
                    == CloseStage::Closing
            },
            Operation::HandleTransaccion { stage, reply, info, endpoint, path } => {
                let next = handle_transaccion_step(stage, reply, caja, info, endpoint, path).1.next;
                next is Call ==> stage == TxStage::Begin && next->Call_resume == TxStage::Resolving
            },
            _ => true,
        },
{
}

/// The sweep moves forward: a step that asks for a call asks for the call
/// of an open register, and of one after the register whose reply it was
/// given. So the sweep is over after at most one call for each register.
pub proof fn lemma_sweep_advances(
    stage: SweepStage,
    reply: Option<GatewayReplyView>,
    cajas: Seq<CajaWithCredsView>,
    endpoint: Seq<char>,
)
    requires
        cajas.len() <= usize::MAX,
    ensures
        ({
            let (after, step) = cerrar_cajas_job_step(stage, reply, cajas, endpoint);
            &&& after.len() == cajas.len()
            &&& step.next matches NextView::Call { resume, .. } ==> {
                &&& resume matches SweepStage::Closing(j)
                &&& j < cajas.len()
                &&& after[j as int].estado == CajasEstadoEnum::Abierto
                &&& stage matches SweepStage::Closing(i) ==> i < j
            }
        }),
{
    let (after, step) = cerrar_cajas_job_step(stage, reply, cajas, endpoint);
    match stage {
        SweepStage::Begin => {
            lemma_next_open_is_first(after, 0);
        },
        SweepStage::Closing(i) => {
            if i < cajas.len() {
                lemma_next_open_is_first(after, i + 1);
            }
        },
    }
}

} // verus!
