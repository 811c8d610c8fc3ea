//! What the device resolver knows of a kiosk: its register and the gateway
//! credentials of the register's group.

use crate::caja::Caja;
use crate::estado::CajasEstadoEnum;
use crate::text::copy_opt;
use vstd::prelude::*;

verus! {

/// A kiosk device, bound to one register.
#[derive(Clone, Debug)]
pub struct Kiosko {
    pub id: i32,
    pub id_caja: i32,
    pub nombre: String,
    pub mac_address: String,
}

/// A merchant: the owner of registers and holder of gateway credentials.
#[derive(Clone, Debug)]
pub struct Grupo {
    pub id: i32,
    pub id_yappy: String,
    pub nombre: String,
    pub api_key: String,
    pub secret_key: String,
}

/// A kiosk with its register's session and its group's credentials.
#[derive(Clone, Debug)]
pub struct KioskoInfo {
    pub nombre: String,
    pub id_caja: i32,
    pub nombre_caja: String,
    pub token_autorizacion: Option<String>,
    pub estado: CajasEstadoEnum,
    pub id_yappy: String,
    pub nombre_grupo: String,
    pub api_key: String,
    pub secret_key: String,
}

/// A [`KioskoInfo`] with its texts as sequences of characters.
#[verifier::ext_equal]
pub struct KioskoInfoView {
    pub nombre: Seq<char>,
    pub id_caja: i32,
    pub nombre_caja: Seq<char>,
    pub token_autorizacion: Option<Seq<char>>,
    pub estado: CajasEstadoEnum,
    pub id_yappy: Seq<char>,
    pub nombre_grupo: Seq<char>,
    pub api_key: Seq<char>,
    pub secret_key: Seq<char>,
}

impl View for KioskoInfo {
    type V = KioskoInfoView;

    open spec fn view(&self) -> KioskoInfoView {
        KioskoInfoView {
            nombre: self.nombre@,
            id_caja: self.id_caja,
            nombre_caja: self.nombre_caja@,
            token_autorizacion: self.token_autorizacion.deep_view(),
            estado: self.estado,
            id_yappy: self.id_yappy@,
            nombre_grupo: self.nombre_grupo@,
            api_key: self.api_key@,
            secret_key: self.secret_key@,
        }
    }
}

/// Whether the three rows belong together: the kiosk points to the register
/// and the register to the group.
pub open spec fn rows_linked(kiosko: Kiosko, caja: Caja, grupo: Grupo) -> bool {
    kiosko.id_caja == caja.id && caja.id_grupo == grupo.id
}

/// What [`get_info_by_mac_address`] gathers from three linked rows.
pub open spec fn info_of(kiosko: Kiosko, caja: Caja, grupo: Grupo) -> KioskoInfoView {
    KioskoInfoView {
        nombre: kiosko.nombre@,
        id_caja: caja.id,
        nombre_caja: caja.nombre_caja@,
        token_autorizacion: caja.token_autorizacion.deep_view(),
        estado: caja.estado,
        id_yappy: grupo.id_yappy@,
        nombre_grupo: grupo.nombre@,
        api_key: grupo.api_key@,
        secret_key: grupo.secret_key@,
    }
}

/// Gathers a kiosk's row, its register's and its group's into one record.
/// Returns `None` exactly where the rows are not linked to each other.
pub fn get_info_by_mac_address(kiosko: &Kiosko, caja: &Caja, grupo: &Grupo) -> (r: Option<
    KioskoInfo,
>)
    ensures
        r.is_some() == rows_linked(*kiosko, *caja, *grupo),
        r.is_some() ==> r.unwrap()@ == info_of(*kiosko, *caja, *grupo),
{
    if kiosko.id_caja != caja.id || caja.id_grupo != grupo.id {
        return None;
    }
    Some(
        KioskoInfo {
            nombre: kiosko.nombre.clone(),
            id_caja: caja.id,
            nombre_caja: caja.nombre_caja.clone(),
            token_autorizacion: copy_opt(&caja.token_autorizacion),
            estado: caja.estado,
            id_yappy: grupo.id_yappy.clone(),
            nombre_grupo: grupo.nombre.clone(),
            api_key: grupo.api_key.clone(),
            secret_key: grupo.secret_key.clone(),
        },
    )
}

} // verus!
