//! A register and the transitions of its session and of its outstanding
//! charge.

use crate::estado::CajasEstadoEnum;
use crate::text::copy_opt;
use vstd::prelude::*;

verus! {

/// A register as the store holds it.
#[derive(Clone, Debug)]
pub struct Caja {
    pub id: i32,
    pub id_grupo: i32,
    pub nombre_caja: String,
    pub tipo: String,
    pub token_autorizacion: Option<String>,
    pub estado: CajasEstadoEnum,
    pub transaccion_actual: Option<String>,
}

/// A [`Caja`] with its texts as sequences of characters.
#[verifier::ext_equal]
pub struct CajaView {
    pub id: i32,
    pub id_grupo: i32,
    pub nombre_caja: Seq<char>,
    pub tipo: Seq<char>,
    pub token_autorizacion: Option<Seq<char>>,
    pub estado: CajasEstadoEnum,
    pub transaccion_actual: Option<Seq<char>>,
}

impl View for Caja {
    type V = CajaView;

    open spec fn view(&self) -> CajaView {
        CajaView {
            id: self.id,
            id_grupo: self.id_grupo,
            nombre_caja: self.nombre_caja@,
            tipo: self.tipo@,
            token_autorizacion: self.token_autorizacion.deep_view(),
            estado: self.estado,
            transaccion_actual: self.transaccion_actual.deep_view(),
        }
    }
}

/// The session invariant: a token is held exactly while the state is `Abierto`.
pub open spec fn session_consistent(estado: CajasEstadoEnum, token: Option<Seq<char>>) -> bool {
    (estado == CajasEstadoEnum::Abierto) <==> token.is_some()
}

impl CajaView {
    /// Whether the register obeys the session invariant.
    pub open spec fn wf(self) -> bool {
        session_consistent(self.estado, self.token_autorizacion)
    }

    /// The register after the gateway issued `token` for it.
    pub open spec fn opened(self, token: Seq<char>) -> CajaView {
        CajaView { token_autorizacion: Some(token), estado: CajasEstadoEnum::Abierto, ..self }
    }

    /// The register after its session was closed.
    pub open spec fn closed(self) -> CajaView {
        CajaView { token_autorizacion: None, estado: CajasEstadoEnum::Cerrado, ..self }
    }

    /// The register after `id` was stored as its outstanding charge. Whatever
    /// was outstanding before is overwritten.
    pub open spec fn registered(self, id: Seq<char>) -> CajaView {
        CajaView { transaccion_actual: Some(id), ..self }
    }

    /// The register with no outstanding charge.
    pub open spec fn cleared(self) -> CajaView {
        CajaView { transaccion_actual: None, ..self }
    }
}

impl Caja {
    /// A register as provisioning creates it: closed, with no token and no
    /// outstanding charge.
    pub fn new(id: i32, id_grupo: i32, nombre_caja: String, tipo: String) -> (r: Caja)
        ensures
            r@ == (CajaView {
                id,
                id_grupo,
                nombre_caja: nombre_caja@,
                tipo: tipo@,
                token_autorizacion: None,
                estado: CajasEstadoEnum::Cerrado,
                transaccion_actual: None,
            }),
            r@.wf(),
    {
        Caja {
            id,
            id_grupo,
            nombre_caja,
            tipo,
            token_autorizacion: None,
            estado: CajasEstadoEnum::Cerrado,
            transaccion_actual: None,
        }
    }

    /// Decides the session invariant.
    pub fn is_wf(&self) -> (r: bool)
        ensures
            r == self@.wf(),
    {
        self.estado.is_abierto() == self.token_autorizacion.is_some()
    }

    /// Whether the register is `Abierto`.
    pub fn is_open(&self) -> (r: bool)
        ensures
            r == (self@.estado == CajasEstadoEnum::Abierto),
    {
        self.estado.is_abierto()
    }

    /// Stores `token` and turns the register `Abierto`, both at once.
    pub fn open_session(&mut self, token: String)
        ensures
            final(self)@ == old(self)@.opened(token@),
            final(self)@.wf(),
    {
        self.token_autorizacion = Some(token);
        self.estado = CajasEstadoEnum::Abierto;
    }

    /// Drops the token and turns the register `Cerrado`, both at once.
    pub fn close_session(&mut self)
        ensures
            final(self)@ == old(self)@.closed(),
            final(self)@.wf(),
    {
        self.token_autorizacion = None;
        self.estado = CajasEstadoEnum::Cerrado;
    }

    /// Stores `id` as the outstanding charge, over whatever was outstanding.
    pub fn register_transaction(&mut self, id: String)
        ensures
            final(self)@ == old(self)@.registered(id@),
    {
        self.transaccion_actual = Some(id);
    }

    /// Reads the outstanding charge and clears it. Returns what was held;
    /// `None` where nothing was outstanding, which is no fault.
    pub fn update_caja_transaccion_actual_null(&mut self) -> (r: Option<String>)
        ensures
            r.deep_view() == old(self)@.transaccion_actual,
            final(self)@ == old(self)@.cleared(),
    {
        let held = copy_opt(&self.transaccion_actual);
        self.transaccion_actual = None;
        held
    }
}

} // verus!
