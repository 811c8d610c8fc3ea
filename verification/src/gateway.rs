//! The calls that the gateway client issues, as values: method, URL,
//! credentials and body. Sending them is the caller's part.

use crate::device::{KioskoInfo, KioskoInfoView};
use crate::headers::{
    header_count, header_entries, header_value_ok, new_headers, no_headers, plain_header_name, put,
    static_name, value_from,
};
use crate::payload::{
    AbrirCaja, GenerarQR, RootPayload, RootPayloadQR, RootPayloadQRView, RootPayloadView,
};
use crate::text::{join, same_text};
use reqwest::header::HeaderMap;
use vstd::prelude::*;

verus! {

/// The HTTP method of a gateway call.
#[derive(Clone, Copy, Debug, PartialEq, Eq, Structural)]
pub enum HttpMethod {
    Get,
    Post,
    Put,
    Delete,
}

/// What a gateway call carries as its body.
#[derive(Clone, Debug)]
pub enum RequestBody {
    /// Nothing.
    Empty,
    /// The payload of an open-session call.
    OpenSession(RootPayload),
    /// The payload of a charge call.
    Charge(RootPayloadQR),
}

/// A [`RequestBody`] with its texts as sequences of characters.
#[verifier::ext_equal]
pub enum RequestBodyView {
    Empty,
    OpenSession(RootPayloadView),
    Charge(RootPayloadQRView),
}

impl View for RequestBody {
    type V = RequestBodyView;

    open spec fn view(&self) -> RequestBodyView {
        match self {
            RequestBody::Empty => RequestBodyView::Empty,
            RequestBody::OpenSession(p) => RequestBodyView::OpenSession(p@),
            RequestBody::Charge(p) => RequestBodyView::Charge(p@),
        }
    }
}

/// One call to the gateway. Its headers are those of
/// [`insert_auth_headers`] for the two keys and the token.
#[derive(Clone, Debug)]
pub struct GatewayRequest {
    pub method: HttpMethod,
    pub url: String,
    pub api_key: String,
    pub secret_key: String,
    pub auth_token: Option<String>,
    pub body: RequestBody,
}

/// A [`GatewayRequest`] with its texts as sequences of characters.
#[verifier::ext_equal]
pub struct GatewayRequestView {
    pub method: HttpMethod,
    pub url: Seq<char>,
    pub api_key: Seq<char>,
    pub secret_key: Seq<char>,
    pub auth_token: Option<Seq<char>>,
    pub body: RequestBodyView,
}

impl View for GatewayRequest {
    type V = GatewayRequestView;

    open spec fn view(&self) -> GatewayRequestView {
        GatewayRequestView {
            method: self.method,
            url: self.url@,
            api_key: self.api_key@,
            secret_key: self.secret_key@,
            auth_token: self.auth_token.deep_view(),
            body: self.body@,
        }
    }
}

/// Which of the two transaction operations a request path asks for.
#[derive(Clone, Copy, Debug, PartialEq, Eq, Structural)]
pub enum RouteKind {
    /// The state of the outstanding charge.
    StatusCheck,
    /// The return of the outstanding charge.
    Return,
}

/// Whether the two keys, and the token where there is one, may be header
/// values.
pub open spec fn credentials_ok(
    api_key: Seq<char>,
    secret_key: Seq<char>,
    auth_token: Option<Seq<char>>,
) -> bool {
    &&& header_value_ok(api_key)
    &&& header_value_ok(secret_key)
    &&& auth_token.is_some() ==> header_value_ok(auth_token.unwrap())
}

/// What the header map of a call holds: the two keys under `api-key` and
/// `secret-key`, and the session token, where there is one, under
/// `authorization`.
pub open spec fn auth_header_entries(
    api_key: Seq<char>,
    secret_key: Seq<char>,
    auth_token: Option<Seq<char>>,
) -> Map<Seq<char>, Seq<char>> {
    let keys = no_headers().insert("api-key"@, api_key).insert("secret-key"@, secret_key);
    match auth_token {
        Some(token) => keys.insert("authorization"@, token),
        None => keys,
    }
}

/// The three header names are plain header names, and no two of them are
/// the same: a map with all three holds three values.
pub proof fn lemma_header_names()
    ensures
        plain_header_name("api-key"@),
        plain_header_name("secret-key"@),
        plain_header_name("authorization"@),
        "api-key"@ != "secret-key"@,
        "api-key"@ != "authorization"@,
        "secret-key"@ != "authorization"@,
{
    reveal_strlit("api-key");
    reveal_strlit("secret-key");
    reveal_strlit("authorization");
}

/// How many values the header map of a call holds: the two keys, and the
/// token where there is one.
pub open spec fn auth_header_count(auth_token: Option<Seq<char>>) -> nat {
    if auth_token.is_some() {
        3
    } else {
        2
    }
}

/// Builds the header map of a call: `api-key`, `secret-key` and, where a
/// token is given, `authorization`, each with one value, as it is given.
/// Returns `None` exactly where one of the three texts may not be a header
/// value.
pub fn insert_auth_headers(api_key: String, secret_key: String, auth_token: Option<String>) -> (r:
    Option<HeaderMap>)
    ensures
        r.is_some() == credentials_ok(api_key@, secret_key@, auth_token.deep_view()),
        r.is_some() ==> header_entries(r.unwrap()) == auth_header_entries(
            api_key@,
            secret_key@,
            auth_token.deep_view(),
        ),
        r.is_some() ==> header_count(r.unwrap()) == auth_header_count(auth_token.deep_view()),
{
    proof {
        lemma_header_names();
    }
    let api_value = match value_from(api_key.as_str()) {
        Some(value) => value,
        None => {
            return None;
        },
    };
    let secret_value = match value_from(secret_key.as_str()) {
        Some(value) => value,
        None => {
            return None;
        },
    };
    let mut auth_headers = new_headers();
    put(&mut auth_headers, static_name("api-key"), api_value);
    put(&mut auth_headers, static_name("secret-key"), secret_value);
    if let Some(token) = auth_token {
        match value_from(token.as_str()) {
            Some(value) => {
                put(&mut auth_headers, static_name("authorization"), value);
            },
            None => {
                return None;
            },
        }
    }
    Some(auth_headers)
}

/// The address of the session resource under a gateway base URL.
pub open spec fn session_url(endpoint: Seq<char>) -> Seq<char> {
    endpoint + "/session/device"@
}

/// The gateway's code for a kind of QR: `HYB` for "hibrido", `DYN` for
/// "dinamico" and for anything else.
pub open spec fn qr_code(tipo_qr: Seq<char>) -> Seq<char> {
    if tipo_qr == "hibrido"@ {
        "HYB"@
    } else {
        "DYN"@
    }
}

/// The address under which a charge of a kind is generated.
pub open spec fn charge_url(endpoint: Seq<char>, tipo_qr: Seq<char>) -> Seq<char> {
    endpoint + "/qr/generate/"@ + qr_code(tipo_qr)
}

/// The address of a transaction.
pub open spec fn transaction_url(endpoint: Seq<char>, id: Seq<char>) -> Seq<char> {
    endpoint + "/transaction/"@ + id
}

/// The description that every charge of a kiosk carries.
pub open spec fn charge_description(kiosko: Seq<char>) -> Seq<char> {
    "Pago en Kiosko UTP del "@ + kiosko
}

/// The call that closes a session: `DELETE` on the session resource, with
/// the token where one is held.
pub open spec fn close_session_call(
    endpoint: Seq<char>,
    api_key: Seq<char>,
    secret_key: Seq<char>,
    auth_token: Option<Seq<char>>,
) -> GatewayRequestView {
    GatewayRequestView {
        method: HttpMethod::Delete,
        url: session_url(endpoint),
        api_key,
        secret_key,
        auth_token,
        body: RequestBodyView::Empty,
    }
}

/// Builds [`close_session_call`].
pub fn cerrar_caja_en_yappy(
    endpoint: &str,
    api_key: String,
    secret_key: String,
    auth_token: Option<String>,
) -> (r: GatewayRequest)
    ensures
        r@ == close_session_call(endpoint@, api_key@, secret_key@, auth_token.deep_view()),
{
    GatewayRequest {
        method: HttpMethod::Delete,
        url: join(endpoint, "/session/device"),
        api_key,
        secret_key,
        auth_token,
        body: RequestBody::Empty,
    }
}

/// The payload with which a kiosk's register opens a session: the register's
/// name is the device, the kiosk's name is the device's name.
pub open spec fn open_session_payload(info: KioskoInfoView) -> RootPayloadView {
    RootPayloadView {
        device_id: info.nombre_caja,
        device_name: Some(info.nombre),
        device_user: None,
        group_id: info.id_yappy,
    }
}

/// The call that opens a session: `POST` on the session resource, with the
/// two keys and no token.
pub open spec fn open_session_call(endpoint: Seq<char>, info: KioskoInfoView) -> GatewayRequestView {
    GatewayRequestView {
        method: HttpMethod::Post,
        url: session_url(endpoint),
        api_key: info.api_key,
        secret_key: info.secret_key,
        auth_token: None,
        body: RequestBodyView::OpenSession(open_session_payload(info)),
    }
}

/// Builds [`open_session_call`].
pub fn open_session_request(endpoint: &str, info: &KioskoInfo) -> (r: GatewayRequest)
    ensures
        r@ == open_session_call(endpoint@, info@),
{
    let abrir = AbrirCaja {
        id_caja: info.nombre_caja.clone(),
        id_grupo: info.id_yappy.clone(),
        nombre_caja: Some(info.nombre.clone()),
        nombre_cajero: None,
    };
    GatewayRequest {
        method: HttpMethod::Post,
        url: join(endpoint, "/session/device"),
        api_key: info.api_key.clone(),
        secret_key: info.secret_key.clone(),
        auth_token: None,
        body: RequestBody::OpenSession(abrir.to_payload()),
    }
}

/// The payload of a kiosk's charge: the charge's amounts and order, under
/// the kiosk's description, whatever description the charge came with.
pub open spec fn charge_payload(info: KioskoInfoView, charge: GenerarQR) -> RootPayloadQRView {
    RootPayloadQRView {
        charge_amount: charge.amounts(),
        order_id: charge.id_orden.deep_view(),
        description: Some(charge_description(info.nombre)),
    }
}

/// The call that generates a charge: `POST` under the address of the
/// charge's kind, with the session token where one is held.
pub open spec fn charge_call(
    endpoint: Seq<char>,
    info: KioskoInfoView,
    auth_token: Option<Seq<char>>,
    charge: GenerarQR,
) -> GatewayRequestView {
    GatewayRequestView {
        method: HttpMethod::Post,
        url: charge_url(endpoint, charge.tipo_qr@),
        api_key: info.api_key,
        secret_key: info.secret_key,
        auth_token,
        body: RequestBodyView::Charge(charge_payload(info, charge)),
    }
}

/// Builds [`charge_call`].
pub fn charge_request(
    endpoint: &str,
    info: &KioskoInfo,
    auth_token: Option<String>,
    charge: &GenerarQR,
) -> (r: GatewayRequest)
    ensures
        r@ == charge_call(endpoint@, info@, auth_token.deep_view(), *charge),
{
    let code = if same_text(charge.tipo_qr.as_str(), "hibrido") {
        "HYB"
    } else {
        "DYN"
    };
    let base = join(endpoint, "/qr/generate/");
    let mut payload = charge.to_payload();
    payload.body.description = Some(join("Pago en Kiosko UTP del ", info.nombre.as_str()));
    GatewayRequest {
        method: HttpMethod::Post,
        url: join(base.as_str(), code),
        api_key: info.api_key.clone(),
        secret_key: info.secret_key.clone(),
        auth_token,
        body: RequestBody::Charge(payload),
    }
}

/// The method of a transaction operation: `GET` asks for the state, `PUT`
/// returns the charge.
pub open spec fn route_method(route: RouteKind) -> HttpMethod {
    match route {
        RouteKind::StatusCheck => HttpMethod::Get,
        RouteKind::Return => HttpMethod::Put,
    }
}

/// The call that asks for, or returns, a transaction.
pub open spec fn transaction_call(
    endpoint: Seq<char>,
    info: KioskoInfoView,
    auth_token: Option<Seq<char>>,
    id: Seq<char>,
    route: RouteKind,
) -> GatewayRequestView {
    GatewayRequestView {
        method: route_method(route),
        url: transaction_url(endpoint, id),
        api_key: info.api_key,
        secret_key: info.secret_key,
        auth_token,
        body: RequestBodyView::Empty,
    }
}

/// Builds [`transaction_call`].
pub fn transaction_request(
    endpoint: &str,
    info: &KioskoInfo,
    auth_token: Option<String>,
    id: &str,
    route: RouteKind,
) -> (r: GatewayRequest)
    ensures
        r@ == transaction_call(endpoint@, info@, auth_token.deep_view(), id@, route),
{
    let method = match route {
        RouteKind::StatusCheck => HttpMethod::Get,
        RouteKind::Return => HttpMethod::Put,
    };
    let base = join(endpoint, "/transaction/");
    GatewayRequest {
        method,
        url: join(base.as_str(), id),
        api_key: info.api_key.clone(),
        secret_key: info.secret_key.clone(),
        auth_token,
        body: RequestBody::Empty,
    }
}

} // verus!
