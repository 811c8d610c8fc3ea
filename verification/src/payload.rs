//! The bodies of an open-session call and of a charge call, as the gateway
//! expects them.

use crate::amount::Amount;
use crate::text::copy_opt;
use vstd::prelude::*;

verus! {

/// The device that opens a session.
#[derive(Clone, Debug)]
pub struct Device {
    pub id: String,
    pub name: Option<String>,
    pub user: Option<String>,
}

/// The `body` member of an open-session call.
#[derive(Clone, Debug)]
pub struct Body {
    pub device: Device,
    pub group_id: String,
}

/// An open-session call's whole payload.
#[derive(Clone, Debug)]
pub struct RootPayload {
    pub body: Body,
}

/// What the orchestrator knows of a register when it opens a session for it.
#[derive(Clone, Debug)]
pub struct AbrirCaja {
    pub id_caja: String,
    pub id_grupo: String,
    pub nombre_caja: Option<String>,
    pub nombre_cajero: Option<String>,
}

/// A [`RootPayload`] laid flat, with its texts as sequences of characters.
#[verifier::ext_equal]
pub struct RootPayloadView {
    pub device_id: Seq<char>,
    pub device_name: Option<Seq<char>>,
    pub device_user: Option<Seq<char>>,
    pub group_id: Seq<char>,
}

impl View for RootPayload {
    type V = RootPayloadView;

    open spec fn view(&self) -> RootPayloadView {
        RootPayloadView {
            device_id: self.body.device.id@,
            device_name: self.body.device.name.deep_view(),
            device_user: self.body.device.user.deep_view(),
            group_id: self.body.group_id@,
        }
    }
}

impl AbrirCaja {
    /// The payload that [`AbrirCaja::to_payload`] builds: the register is the
    /// device, its name and cashier are the device's name and user, and the
    /// group goes beside the device.
    pub open spec fn payload(&self) -> RootPayloadView {
        RootPayloadView {
            device_id: self.id_caja@,
            device_name: self.nombre_caja.deep_view(),
            device_user: self.nombre_cajero.deep_view(),
            group_id: self.id_grupo@,
        }
    }

    /// Lays the register's data out as the gateway's open-session payload.
    pub fn to_payload(&self) -> (r: RootPayload)
        ensures
            r@ == self.payload(),
    {
        RootPayload {
            body: Body {
                device: Device {
                    id: self.id_caja.clone(),
                    name: copy_opt(&self.nombre_caja),
                    user: copy_opt(&self.nombre_cajero),
                },
                group_id: self.id_grupo.clone(),
            },
        }
    }
}

/// A charge as a kiosk asks for it.
#[derive(Clone, Debug)]
pub struct GenerarQR {
    pub tipo_qr: String,
    pub subtotal: Amount,
    pub total: Amount,
    pub impuesto: Amount,
    pub propina: Amount,
    pub descuento: Amount,
    pub id_orden: Option<String>,
    pub descripcion: Option<String>,
}

/// The amounts of a charge, under the gateway's names.
#[derive(Clone, Copy, Debug, PartialEq, Eq, Structural)]
pub struct ChargeAmount {
    pub sub_total: Amount,
    pub tax: Amount,
    pub tip: Amount,
    pub discount: Amount,
    pub total: Amount,
}

/// The `body` member of a charge call.
#[derive(Clone, Debug)]
pub struct BodyGenerarQR {
    pub charge_amount: ChargeAmount,
    pub order_id: Option<String>,
    pub description: Option<String>,
}

/// A charge call's whole payload.
#[derive(Clone, Debug)]
pub struct RootPayloadQR {
    pub body: BodyGenerarQR,
}

/// A [`RootPayloadQR`] laid flat, with its texts as sequences of characters.
#[verifier::ext_equal]
pub struct RootPayloadQRView {
    pub charge_amount: ChargeAmount,
    pub order_id: Option<Seq<char>>,
    pub description: Option<Seq<char>>,
}

impl View for RootPayloadQR {
    type V = RootPayloadQRView;

    open spec fn view(&self) -> RootPayloadQRView {
        RootPayloadQRView {
            charge_amount: self.body.charge_amount,
            order_id: self.body.order_id.deep_view(),
            description: self.body.description.deep_view(),
        }
    }
}

impl GenerarQR {
    /// The amounts of the charge under the gateway's names: the subtotal,
    /// the tax for `impuesto`, the tip for `propina`, the discount for
    /// `descuento`, and the total.
    pub open spec fn amounts(&self) -> ChargeAmount {
        ChargeAmount {
            sub_total: self.subtotal,
            tax: self.impuesto,
            tip: self.propina,
            discount: self.descuento,
            total: self.total,
        }
    }

    /// The payload that [`GenerarQR::to_payload`] builds: the amounts, the
    /// order and the description.
    pub open spec fn payload(&self) -> RootPayloadQRView {
        RootPayloadQRView {
            charge_amount: self.amounts(),
            order_id: self.id_orden.deep_view(),
            description: self.descripcion.deep_view(),
        }
    }

    /// Lays the charge out as the gateway's charge payload.
    pub fn to_payload(&self) -> (r: RootPayloadQR)
        ensures
            r@ == self.payload(),
    {
        RootPayloadQR {
            body: BodyGenerarQR {
                charge_amount: ChargeAmount {
                    sub_total: self.subtotal,
                    tax: self.impuesto,
                    tip: self.propina,
                    discount: self.descuento,
                    total: self.total,
                },
                order_id: copy_opt(&self.id_orden),
                description: copy_opt(&self.descripcion),
            },
        }
    }
}

} // verus!
