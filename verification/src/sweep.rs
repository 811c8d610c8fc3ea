//! The scheduled sweep: every open register is closed in turn through the
//! reconciliation policy, each with its own outcome.

use crate::caja::session_consistent;
use crate::estado::CajasEstadoEnum;
use crate::flow::{
    received, reply_or_failure, reply_view, Next, NextView, Step, StepView, Success, SuccessView,
};
use crate::gateway::{cerrar_caja_en_yappy, close_session_call, GatewayRequestView};
use crate::recorder::{closes, reconcile, record_writes};
use crate::reply::{GatewayReply, GatewayReplyView};
use crate::text::copy_opt;
use vstd::prelude::*;

verus! {

/// A register's session, joined with the credentials of its group.
#[derive(Clone, Debug)]
pub struct CajaWithCreds {
    pub id: i32,
    pub nombre_caja: String,
    pub estado: CajasEstadoEnum,
    pub api_key: String,
    pub secret_key: String,
    pub token_autorizacion: Option<String>,
}

/// A [`CajaWithCreds`] with its texts as sequences of characters.
#[verifier::ext_equal]
pub struct CajaWithCredsView {
    pub id: i32,
    pub nombre_caja: Seq<char>,
    pub estado: CajasEstadoEnum,
    pub api_key: Seq<char>,
    pub secret_key: Seq<char>,
    pub token_autorizacion: Option<Seq<char>>,
}

impl DeepView for CajaWithCreds {
    type V = CajaWithCredsView;

    open spec fn deep_view(&self) -> CajaWithCredsView {
        CajaWithCredsView {
            id: self.id,
            nombre_caja: self.nombre_caja@,
            estado: self.estado,
            api_key: self.api_key@,
            secret_key: self.secret_key@,
            token_autorizacion: self.token_autorizacion.deep_view(),
        }
    }
}

impl CajaWithCredsView {
    /// Whether the register obeys the session invariant.
    pub open spec fn wf(self) -> bool {
        session_consistent(self.estado, self.token_autorizacion)
    }

    /// The register after its session was closed.
    pub open spec fn closed(self) -> CajaWithCredsView {
        CajaWithCredsView { token_autorizacion: None, estado: CajasEstadoEnum::Cerrado, ..self }
    }

    /// The register after a close attempt that ended in `reply`.
    pub open spec fn recorded(self, reply: GatewayReplyView) -> CajaWithCredsView {
        if closes(reply) {
            self.closed()
        } else {
            self
        }
    }

    /// The close-session call for this register.
    pub open spec fn close_call(self, endpoint: Seq<char>) -> GatewayRequestView {
        close_session_call(endpoint, self.api_key, self.secret_key, self.token_autorizacion)
    }
}

/// Where the sweep stands.
#[derive(Clone, Copy, Debug, PartialEq, Eq, Structural)]
pub enum SweepStage {
    /// Nothing was done yet.
    Begin,
    /// The close-session call for the register at this position is out.
    Closing(usize),
}

/// The position of the first open register at or after `from`; the length
/// of `cajas` where there is none.
pub open spec fn next_open(cajas: Seq<CajaWithCredsView>, from: int) -> int
    decreases cajas.len() - from,
{
    if from < 0 || from >= cajas.len() {
        cajas.len() as int
    } else if cajas[from].estado == CajasEstadoEnum::Abierto {
        from
    } else {
        next_open(cajas, from + 1)
    }
}

/// [`next_open`] finds the first open register from `from` on: none of the
/// registers before the position it gives is open, and the one at the
/// position is, unless the position is the length.
pub proof fn lemma_next_open_is_first(cajas: Seq<CajaWithCredsView>, from: int)
    requires
        0 <= from <= cajas.len(),
    ensures
        from <= next_open(cajas, from) <= cajas.len(),
        next_open(cajas, from) < cajas.len() ==> cajas[next_open(cajas, from)].estado
            == CajasEstadoEnum::Abierto,
        forall|k: int|
            from <= k < next_open(cajas, from) ==> (#[trigger] cajas[k]).estado
                == CajasEstadoEnum::Cerrado,
    decreases cajas.len() - from,
{
    if from < cajas.len() && cajas[from].estado != CajasEstadoEnum::Abierto {
        lemma_next_open_is_first(cajas, from + 1);
    }
}

/// How the sweep ends: with nothing to report.
pub open spec fn sweep_done() -> NextView<SweepStage> {
    NextView::Done(Ok(SuccessView { token: None, data: None, referencia: None }))
}

/// The sweep's move to the first open register at or after `from`: its
/// close-session call, or the end where no open register is left.
pub open spec fn sweep_next(cajas: Seq<CajaWithCredsView>, from: int, endpoint: Seq<char>) -> NextView<
    SweepStage,
> {
    let j = next_open(cajas, from);
    if j < cajas.len() {
        NextView::Call { request: cajas[j].close_call(endpoint), resume: SweepStage::Closing(j as usize) }
    } else {
        sweep_done()
    }
}

/// One step of the sweep. It begins at the first open register. With the
/// reply to the call for the register at position `i`, that register, and
/// no other, goes through the reconciliation policy; then the sweep moves
/// on to the next open register after `i`, whatever the reply was.
pub open spec fn cerrar_cajas_job_step(
    stage: SweepStage,
    reply: Option<GatewayReplyView>,
    cajas: Seq<CajaWithCredsView>,
    endpoint: Seq<char>,
) -> (Seq<CajaWithCredsView>, StepView<SweepStage>) {
    match stage {
        SweepStage::Begin => (
            cajas,
            StepView { writes: Seq::empty(), next: sweep_next(cajas, 0, endpoint) },
        ),
        SweepStage::Closing(i) => if i < cajas.len() {
            let r = reply_or_failure(reply);
            let after = cajas.update(i as int, cajas[i as int].recorded(r));
            (
                after,
                StepView {
                    writes: record_writes(cajas[i as int].id, r),
                    next: sweep_next(after, i + 1, endpoint),
                },
            )
        } else {
            (cajas, StepView { writes: Seq::empty(), next: sweep_done() })
        },
    }
}

fn find_open(cajas: &Vec<CajaWithCreds>, from: usize) -> (r: usize)
    ensures
        r == next_open(cajas.deep_view(), from as int),
        from <= r || r == cajas.len(),
        r <= cajas.len(),
{
    let mut j = from;
    while j < cajas.len()
        invariant
            from <= j,
            next_open(cajas.deep_view(), j as int) == next_open(cajas.deep_view(), from as int),
        decreases cajas.len() - j,
    {
        if cajas[j].estado.is_abierto() {
            return j;
        }
        j = j + 1;
    }
    cajas.len()
}

fn move_on(cajas: &Vec<CajaWithCreds>, from: usize, endpoint: &str) -> (r: Next<SweepStage>)
    ensures
        r@ == sweep_next(cajas.deep_view(), from as int, endpoint@),
{
    let j = find_open(cajas, from);
    if j < cajas.len() {
        let caja = &cajas[j];
        Next::Call {
            request: cerrar_caja_en_yappy(
                endpoint,
                caja.api_key.clone(),
                caja.secret_key.clone(),
                copy_opt(&caja.token_autorizacion),
            ),
            resume: SweepStage::Closing(j),
        }
    } else {
        Next::Done(Ok(Success { token: None, data: None, referencia: None }))
    }
}

/// Takes one step of the sweep over `cajas`.
pub fn cerrar_cajas_job(
    stage: SweepStage,
    reply: Option<GatewayReply>,
    cajas: &mut Vec<CajaWithCreds>,
    endpoint: &str,
) -> (step: Step<SweepStage>)
    ensures
        (final(cajas).deep_view(), step@) == cerrar_cajas_job_step(
            stage,
            reply_view(reply),
            old(cajas).deep_view(),
            endpoint@,
        ),
{
    match stage {
        SweepStage::Begin => Step { writes: Vec::new(), next: move_on(cajas, 0, endpoint) },
        SweepStage::Closing(i) => {
            if i < cajas.len() {
                let r = received(reply);
                let (writes, closed) = reconcile(cajas[i].id, &r);
                if closed {
                    let caja = &cajas[i];
                    let after = CajaWithCreds {
                        id: caja.id,
                        nombre_caja: caja.nombre_caja.clone(),
                        estado: CajasEstadoEnum::Cerrado,
                        api_key: caja.api_key.clone(),
                        secret_key: caja.secret_key.clone(),
                        token_autorizacion: None,
                    };
                    cajas.set(i, after);
                }
                assert(cajas.deep_view() =~= old(cajas).deep_view().update(
                    i as int,
                    old(cajas).deep_view()[i as int].recorded(r@),
                ));
                Step { writes, next: move_on(cajas, i + 1, endpoint) }
            } else {
                Step {
                    writes: Vec::new(),
                    next: Next::Done(Ok(Success { token: None, data: None, referencia: None })),
                }
            }
        },
    }
}

} // verus!
