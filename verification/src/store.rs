//! The rows that the orchestrator asks the relational store to write.

use crate::amount::Amount;
use crate::caja::session_consistent;
use crate::estado::CajasEstadoEnum;
use vstd::prelude::*;

verus! {

/// One line of a successful closure: a category, its amount and how many
/// transactions it sums up.
#[derive(Clone, Debug)]
pub struct NewCajaCierreResumen {
    pub id_caja: i32,
    pub tipo: String,
    pub monto: Amount,
    pub transacciones: i32,
}

/// A [`NewCajaCierreResumen`] with its text as a sequence of characters.
#[verifier::ext_equal]
pub struct NewCajaCierreResumenView {
    pub id_caja: i32,
    pub tipo: Seq<char>,
    pub monto: Amount,
    pub transacciones: i32,
}

impl View for NewCajaCierreResumen {
    type V = NewCajaCierreResumenView;

    open spec fn view(&self) -> NewCajaCierreResumenView {
        NewCajaCierreResumenView {
            id_caja: self.id_caja,
            tipo: self.tipo@,
            monto: self.monto,
            transacciones: self.transacciones,
        }
    }
}

/// What is kept of a closure that failed.
#[derive(Clone, Debug)]
pub enum RespuestaJson {
    /// The gateway's body, as it came.
    Gateway(String),
    /// The message of a transport failure.
    Transport(String),
}

/// A [`RespuestaJson`] with its text as a sequence of characters.
#[verifier::ext_equal]
pub enum RespuestaJsonView {
    Gateway(Seq<char>),
    Transport(Seq<char>),
}

impl View for RespuestaJson {
    type V = RespuestaJsonView;

    open spec fn view(&self) -> RespuestaJsonView {
        match self {
            RespuestaJson::Gateway(raw) => RespuestaJsonView::Gateway(raw@),
            RespuestaJson::Transport(message) => RespuestaJsonView::Transport(message@),
        }
    }
}

/// The record of a closure that failed.
#[derive(Clone, Debug)]
pub struct NewCajaCierreError {
    pub id_caja: i32,
    pub respuesta_json: RespuestaJson,
}

/// A [`NewCajaCierreError`] with its text as a sequence of characters.
#[verifier::ext_equal]
pub struct NewCajaCierreErrorView {
    pub id_caja: i32,
    pub respuesta_json: RespuestaJsonView,
}

impl View for NewCajaCierreError {
    type V = NewCajaCierreErrorView;

    open spec fn view(&self) -> NewCajaCierreErrorView {
        NewCajaCierreErrorView { id_caja: self.id_caja, respuesta_json: self.respuesta_json@ }
    }
}

/// One write to the store.
#[derive(Clone, Debug)]
pub enum StoreWrite {
    /// Set a register's token and state, in one update.
    SaveSession { id_caja: i32, token_autorizacion: Option<String>, estado: CajasEstadoEnum },
    /// Set a register's outstanding charge.
    SaveTransaction { id_caja: i32, transaccion_actual: Option<String> },
    /// Append a line of a successful closure.
    InsertResumen(NewCajaCierreResumen),
    /// Append the record of a failed closure.
    InsertError(NewCajaCierreError),
}

/// A [`StoreWrite`] with its texts as sequences of characters.
#[verifier::ext_equal]
pub enum StoreWriteView {
    SaveSession { id_caja: i32, token_autorizacion: Option<Seq<char>>, estado: CajasEstadoEnum },
    SaveTransaction { id_caja: i32, transaccion_actual: Option<Seq<char>> },
    InsertResumen(NewCajaCierreResumenView),
    InsertError(NewCajaCierreErrorView),
}

impl DeepView for StoreWrite {
    type V = StoreWriteView;

    open spec fn deep_view(&self) -> StoreWriteView {
        match self {
            StoreWrite::SaveSession { id_caja, token_autorizacion, estado } => {
                StoreWriteView::SaveSession {
                    id_caja: *id_caja,
                    token_autorizacion: token_autorizacion.deep_view(),
                    estado: *estado,
                }
            },
            StoreWrite::SaveTransaction { id_caja, transaccion_actual } => {
                StoreWriteView::SaveTransaction {
                    id_caja: *id_caja,
                    transaccion_actual: transaccion_actual.deep_view(),
                }
            },
            StoreWrite::InsertResumen(row) => StoreWriteView::InsertResumen(row@),
            StoreWrite::InsertError(row) => StoreWriteView::InsertError(row@),
        }
    }
}

impl StoreWriteView {
    /// Whether the write keeps the session invariant in the store: a session
    /// update stores a token exactly with `Abierto`; other writes do not
    /// touch the session.
    pub open spec fn keeps_session_invariant(self) -> bool {
        match self {
            StoreWriteView::SaveSession { token_autorizacion, estado, .. } => session_consistent(
                estado,
                token_autorizacion,
            ),
            _ => true,
        }
    }
}

} // verus!
