//! The reconciliation policy: what a close attempt's end means for the
//! register and for the store. The interactive close and the scheduled
//! sweep both go through it.

use crate::amount::Amount;
use crate::caja::{Caja, CajaView};
use crate::estado::CajasEstadoEnum;
use crate::reply::{GatewayBody, GatewayBodyView, GatewayReply, GatewayReplyView, SummaryEntry, SummaryEntryView};
use crate::store::{
    NewCajaCierreError, NewCajaCierreErrorView, NewCajaCierreResumen, NewCajaCierreResumenView,
    RespuestaJson, RespuestaJsonView, StoreWrite, StoreWriteView,
};
use crate::text::same_text;
use vstd::prelude::*;

verus! {

/// Whether a body carries the gateway's canonical success code, `YP-0000`,
/// at `/status/code`.
pub open spec fn reports_success(body: GatewayBodyView) -> bool {
    body.code == Some("YP-0000"@)
}

/// The row for one summary line. A missing category is `UNKNOWN`, a missing
/// amount is zero, a missing count is zero; a count is cut to its low 32
/// bits.
pub open spec fn resumen_of(id_caja: i32, entry: SummaryEntryView) -> NewCajaCierreResumenView {
    NewCajaCierreResumenView {
        id_caja,
        tipo: match entry.kind {
            Some(kind) => kind,
            None => "UNKNOWN"@,
        },
        monto: match entry.amount {
            Some(amount) => amount,
            None => Amount::nothing(),
        },
        transacciones: match entry.transactions {
            Some(n) => n as i32,
            None => 0,
        },
    }
}

/// The rows for a summary, one per line and in the summary's order; none
/// where the body has no summary.
pub open spec fn summary_rows(id_caja: i32, summary: Option<Seq<SummaryEntryView>>) -> Seq<
    StoreWriteView,
> {
    match summary {
        Some(entries) => Seq::new(
            entries.len(),
            |i: int| StoreWriteView::InsertResumen(resumen_of(id_caja, entries[i])),
        ),
        None => Seq::empty(),
    }
}

/// Whether a close attempt that ended in `reply` closes the register: only
/// a body with the success code does.
pub open spec fn closes(reply: GatewayReplyView) -> bool {
    match reply {
        GatewayReplyView::Body(body) => reports_success(body),
        GatewayReplyView::Transport(_) => false,
    }
}

/// The one error row that a failed close attempt leaves.
pub open spec fn error_row(id_caja: i32, reply: GatewayReplyView) -> StoreWriteView {
    StoreWriteView::InsertError(
        NewCajaCierreErrorView {
            id_caja,
            respuesta_json: match reply {
                GatewayReplyView::Body(body) => RespuestaJsonView::Gateway(body.raw),
                GatewayReplyView::Transport(message) => RespuestaJsonView::Transport(message),
            },
        },
    )
}

/// The update that stores a closed session.
pub open spec fn closed_session(id_caja: i32) -> StoreWriteView {
    StoreWriteView::SaveSession {
        id_caja,
        token_autorizacion: None,
        estado: CajasEstadoEnum::Cerrado,
    }
}

/// What a close attempt writes. On success: the summary's rows, then the
/// closed session. Otherwise (a transport failure, another code, no code):
/// exactly one error row.
pub open spec fn record_writes(id_caja: i32, reply: GatewayReplyView) -> Seq<StoreWriteView> {
    if closes(reply) {
        summary_rows(id_caja, reply->Body_0.summary).push(closed_session(id_caja))
    } else {
        seq![error_row(id_caja, reply)]
    }
}

/// The register after a close attempt that ended in `reply`.
pub open spec fn recorded(caja: CajaView, reply: GatewayReplyView) -> CajaView {
    if closes(reply) {
        caja.closed()
    } else {
        caja
    }
}

fn body_reports_success(body: &GatewayBody) -> (r: bool)
    ensures
        r == reports_success(body@),
{
    match &body.code {
        Some(code) => same_text(code.as_str(), "YP-0000"),
        None => false,
    }
}

fn resumen_row(id_caja: i32, entry: &SummaryEntry) -> (r: NewCajaCierreResumen)
    ensures
        r@ == resumen_of(id_caja, entry.deep_view()),
{
    let tipo = match &entry.kind {
        Some(kind) => kind.clone(),
        None => "UNKNOWN".to_owned(),
    };
    let monto = match entry.amount {
        Some(amount) => amount,
        None => Amount::zero(),
    };
    let transacciones = match entry.transactions {
        Some(n) => #[verifier::truncate]
        (n as i32),
        None => 0,
    };
    NewCajaCierreResumen { id_caja, tipo, monto, transacciones }
}

/// Decides what a close attempt on register `id_caja` writes, and whether
/// it closes the register.
pub fn reconcile(id_caja: i32, reply: &GatewayReply) -> (r: (Vec<StoreWrite>, bool))
    ensures
        r.0.deep_view() == record_writes(id_caja, reply@),
        r.1 == closes(reply@),
{
    let mut writes: Vec<StoreWrite> = Vec::new();
    match reply {
        GatewayReply::Transport(message) => {
            writes.push(
                StoreWrite::InsertError(
                    NewCajaCierreError {
                        id_caja,
                        respuesta_json: RespuestaJson::Transport(message.clone()),
                    },
                ),
            );
            assert(writes.deep_view() =~= record_writes(id_caja, reply@));
            (writes, false)
        },
        GatewayReply::Body(body) => {
            if body_reports_success(body) {
                if let Some(entries) = &body.summary {
                    let mut i: usize = 0;
                    while i < entries.len()
                        invariant
                            i <= entries.len(),
                            writes.len() == i,
                            forall|k: int|
                                0 <= k < i ==> (#[trigger] writes[k]).deep_view()
                                    == StoreWriteView::InsertResumen(
                                    resumen_of(id_caja, entries[k].deep_view()),
                                ),
                        decreases entries.len() - i,
                    {
                        writes.push(StoreWrite::InsertResumen(resumen_row(id_caja, &entries[i])));
                        i = i + 1;
                    }
                }
                writes.push(
                    StoreWrite::SaveSession {
                        id_caja,
                        token_autorizacion: None,
                        estado: CajasEstadoEnum::Cerrado,
                    },
                );
                assert(writes.deep_view() =~= record_writes(id_caja, reply@));
                (writes, true)
            } else {
                writes.push(
                    StoreWrite::InsertError(
                        NewCajaCierreError {
                            id_caja,
                            respuesta_json: RespuestaJson::Gateway(body.raw.clone()),
                        },
                    ),
                );
                assert(writes.deep_view() =~= record_writes(id_caja, reply@));
                (writes, false)
            }
        },
    }
}

/// Records the end of a close attempt on a register. A body with the
/// success code closes the register and leaves one row per summary line;
/// anything else leaves the register as it was and one error row.
pub fn guardar_datos_caja(caja: &mut Caja, reply: &GatewayReply) -> (writes: Vec<StoreWrite>)
    ensures
        final(caja)@ == recorded(old(caja)@, reply@),
        writes.deep_view() == record_writes(old(caja)@.id, reply@),
        old(caja)@.wf() ==> final(caja)@.wf(),
{
    let (writes, closed) = reconcile(caja.id, reply);
    if closed {
        caja.close_session();
    }
    writes
}

} // verus!
