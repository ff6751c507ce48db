//! Opening a gateway connection: the challenge, the signed connect request,
//! the answer to it, and how long to wait before the next attempt.
use vstd::prelude::*;

use crate::device_identity::{
    answer_to, DeviceIdentity, SignConnectParams, SignConnectParamsView,
};
use crate::crypto::base64url;
use crate::json::{
    add_field, array_in, bool_in, flag_in, get_in, items_in, member, parse, parsed, str_in, str_is,
    text_in, Json, JsonField, JsonView,
};
use crate::net::events::{
    PairRequest, PairRequestKind, PairRequestView, WsEvent, WsEventView,
};
use crate::seqs::{filter_map_step, no_items, push_to};
use crate::text::{cat, cat3, chars_of, has_prefix, position, position_unique, strip_prefix, text_of};

verus! {

/// The version of the protocol this client speaks.
pub const PROTOCOL: i64 = 3;

/// How long each half of the handshake may take, in milliseconds.
pub const HANDSHAKE_TIMEOUT_MS: u64 = 10_000;

/// The first wait before a new attempt, in milliseconds.
pub const INITIAL_BACKOFF_MS: u64 = 500;

/// The longest wait before a new attempt, in milliseconds.
pub const MAX_BACKOFF_MS: u64 = 30_000;

/// The wait while the operator approves a pending pair request, in
/// milliseconds. The gateway mints a fresh request id on every attempt, so
/// that short cycles would make the id shown go stale.
pub const PAIRING_BACKOFF_MS: u64 = 300_000;

/// Why a session ended.
#[derive(Debug, PartialEq)]
pub enum SessionError {
    Connect(String),
    HandshakeRejected(String),
    /// The operator has to approve a pair request first.
    PairingRequired(PairRequest),
    HandshakeTimeout,
    SocketClosed,
    Json(String),
    Send(String),
}

/// What [`SessionError`] holds, as mathematical values.
#[verifier::ext_equal]
pub enum SessionErrorView {
    Connect(Seq<char>),
    HandshakeRejected(Seq<char>),
    PairingRequired(PairRequestView),
    HandshakeTimeout,
    SocketClosed,
    Json(Seq<char>),
    Send(Seq<char>),
}

impl DeepView for SessionError {
    type V = SessionErrorView;

    open spec fn deep_view(&self) -> SessionErrorView {
        match *self {
            SessionError::Connect(a0) => SessionErrorView::Connect(a0.deep_view()),
            SessionError::HandshakeRejected(a0) => SessionErrorView::HandshakeRejected(a0.deep_view()),
            SessionError::PairingRequired(a0) => SessionErrorView::PairingRequired(a0.deep_view()),
            SessionError::HandshakeTimeout => SessionErrorView::HandshakeTimeout,
            SessionError::SocketClosed => SessionErrorView::SocketClosed,
            SessionError::Json(a0) => SessionErrorView::Json(a0.deep_view()),
            SessionError::Send(a0) => SessionErrorView::Send(a0.deep_view()),
        }
    }
}

impl Clone for SessionError {
    fn clone(&self) -> (r: SessionError)
        ensures
            r.deep_view() == self.deep_view(),
    {
        match self {
            SessionError::Connect(a0) => SessionError::Connect(a0.clone()),
            SessionError::HandshakeRejected(a0) => SessionError::HandshakeRejected(a0.clone()),
            SessionError::PairingRequired(a0) => SessionError::PairingRequired(a0.clone()),
            SessionError::HandshakeTimeout => SessionError::HandshakeTimeout,
            SessionError::SocketClosed => SessionError::SocketClosed,
            SessionError::Json(a0) => SessionError::Json(a0.clone()),
            SessionError::Send(a0) => SessionError::Send(a0.clone()),
        }
    }
}

impl SessionErrorView {
    /// The error in words.
    pub open spec fn told(self) -> Seq<char> {
        match self {
            SessionErrorView::Connect(e) => "connect "@ + e,
            SessionErrorView::HandshakeRejected(e) => "handshake rejected: "@ + e,
            SessionErrorView::PairingRequired(p) => match p.kind {
                PairRequestKind::ScopeUpgrade => "scope-upgrade pairing required (request "@
                    + p.request_id + ")"@,
                PairRequestKind::FirstPair => "pairing required (request "@ + p.request_id + ")"@,
            },
            SessionErrorView::HandshakeTimeout => "handshake timeout"@,
            SessionErrorView::SocketClosed => "socket closed"@,
            SessionErrorView::Json(e) => "json: "@ + e,
            SessionErrorView::Send(e) => "send: "@ + e,
        }
    }
}

impl SessionError {
    /// The error in words.
    pub fn message(&self) -> (r: String)
        ensures
            r@ == self.deep_view().told(),
    {
        match self {
            SessionError::Connect(e) => cat("connect ", e.as_str()),
            SessionError::HandshakeRejected(e) => cat("handshake rejected: ", e.as_str()),
            SessionError::PairingRequired(p) => match p.kind {
                PairRequestKind::ScopeUpgrade => cat3(
                    "scope-upgrade pairing required (request ",
                    p.request_id.as_str(),
                    ")",
                ),
                PairRequestKind::FirstPair => cat3(
                    "pairing required (request ",
                    p.request_id.as_str(),
                    ")",
                ),
            },
            SessionError::HandshakeTimeout => "handshake timeout".to_owned(),
            SessionError::SocketClosed => "socket closed".to_owned(),
            SessionError::Json(e) => cat("json: ", e.as_str()),
            SessionError::Send(e) => cat("send: ", e.as_str()),
        }
    }
}

// ---------------------------------------------------------------------
// Where to connect
// ---------------------------------------------------------------------

/// Everything before the first `/`.
pub open spec fn authority(rest: Seq<char>) -> Seq<char> {
    rest.take(position(rest, '/'))
}

/// The HTTP origin of a WebSocket URL.
pub open spec fn origin_of(url: Seq<char>) -> Option<Seq<char>> {
    if has_prefix(url, "wss://"@) {
        let a = authority(url.skip("wss://"@.len() as int));
        if a.len() == 0 {
            None
        } else {
            Some("https"@ + "://"@ + a)
        }
    } else if has_prefix(url, "ws://"@) {
        let a = authority(url.skip("ws://"@.len() as int));
        if a.len() == 0 {
            None
        } else {
            Some("http"@ + "://"@ + a)
        }
    } else {
        None
    }
}

fn before_slash(rest: &str) -> (r: String)
    ensures
        r@ == authority(rest@),
{
    let chars = chars_of(rest);
    let mut end: usize = 0;
    while end < chars.len() && chars[end] != '/'
        invariant
            end <= chars@.len(),
            forall|k: int| 0 <= k < end ==> chars@[k] != '/',
        decreases chars@.len() - end,
    {
        end = end + 1;
    }
    proof {
        position_unique(chars@, '/', end as int);
    }
    let r = text_of(&chars, 0, end);
    assert(r@ =~= authority(rest@));
    r
}

/// Maps a `ws://` or `wss://` gateway URL onto the matching HTTP origin
/// (scheme and authority). `None` for any other URL, and for one without an
/// authority.
pub fn derive_origin(ws_url: &str) -> (r: Option<String>)
    ensures
        r.deep_view() == origin_of(ws_url@),
{
    let (scheme, rest) = match strip_prefix(ws_url, "wss://") {
        Some(rest) => ("https", rest),
        None => match strip_prefix(ws_url, "ws://") {
            Some(rest) => ("http", rest),
            None => {
                return None;
            },
        },
    };
    let host = before_slash(rest.as_str());
    if host.as_str().is_empty() {
        None
    } else {
        Some(cat3(scheme, "://", host.as_str()))
    }
}

// ---------------------------------------------------------------------
// The challenge
// ---------------------------------------------------------------------

/// What a frame before the connect request means: nothing yet, or a challenge
/// with its nonce.
pub open spec fn challenge_in(v: JsonView) -> Result<Option<Seq<char>>, SessionErrorView> {
    if text_in(v.field("type"@)) == Some("event"@) && text_in(v.field("event"@)) == Some(
        "connect.challenge"@,
    ) {
        match text_in(member(v.field("payload"@), "nonce"@)) {
            Some(n) => if n.len() == 0 {
                Err(SessionErrorView::HandshakeRejected("challenge missing nonce"@))
            } else {
                Ok(Some(n))
            },
            None => Err(SessionErrorView::HandshakeRejected("challenge missing nonce"@)),
        }
    } else {
        Ok(None)
    }
}

/// Whether an outcome of the library is the modelled one.
pub open spec fn same_outcome<T: DeepView>(
    r: Result<T, SessionError>,
    m: Result<T::V, SessionErrorView>,
) -> bool {
    match (r, m) {
        (Ok(a), Ok(b)) => a.deep_view() == b,
        (Err(a), Err(b)) => a.deep_view() == b,
        _ => false,
    }
}

/// Looks for the server's challenge in a frame. `Ok(None)` for any other
/// frame.
pub fn read_challenge(v: &Json) -> (r: Result<Option<String>, SessionError>)
    ensures
        same_outcome(r, challenge_in(v.deep_view())),
{
    if str_is(v.get("type"), "event") && str_is(v.get("event"), "connect.challenge") {
        match str_in(get_in(v.get("payload"), "nonce")) {
            Some(n) => if n.as_str().is_empty() {
                Err(SessionError::HandshakeRejected("challenge missing nonce".to_owned()))
            } else {
                Ok(Some(n.clone()))
            },
            None => Err(SessionError::HandshakeRejected("challenge missing nonce".to_owned())),
        }
    } else {
        Ok(None)
    }
}

/// What a text before the connect request means.
pub open spec fn challenge_of_text(txt: Seq<char>) -> Result<Option<Seq<char>>, SessionErrorView> {
    match parsed(txt) {
        Ok(v) => challenge_in(v),
        Err(e) => Err(SessionErrorView::Json(e)),
    }
}

/// Looks for the server's challenge in a text frame.
pub fn await_challenge(txt: &str) -> (r: Result<Option<String>, SessionError>)
    ensures
        same_outcome(r, challenge_of_text(txt@)),
{
    match parse(txt) {
        Ok(v) => read_challenge(&v),
        Err(e) => Err(SessionError::Json(e)),
    }
}

// ---------------------------------------------------------------------
// The connect request
// ---------------------------------------------------------------------

/// Who is connecting, and from where.
#[derive(Debug)]
pub struct ClientInfo {
    pub version: String,
    pub platform: String,
    pub instance_id: String,
}

/// What [`ClientInfo`] holds, as mathematical values.
#[verifier::ext_equal]
pub struct ClientInfoView {
    pub version: Seq<char>,
    pub platform: Seq<char>,
    pub instance_id: Seq<char>,
}

impl DeepView for ClientInfo {
    type V = ClientInfoView;

    open spec fn deep_view(&self) -> ClientInfoView {
        ClientInfoView {
            version: self.version.deep_view(),
            platform: self.platform.deep_view(),
            instance_id: self.instance_id.deep_view(),
        }
    }
}

impl Clone for ClientInfo {
    fn clone(&self) -> (r: ClientInfo)
        ensures
            r.deep_view() == self.deep_view(),
    {
        ClientInfo {
            version: self.version.clone(),
            platform: self.platform.clone(),
            instance_id: self.instance_id.clone(),
        }
    }
}

/// The scopes that the client asks for.
pub open spec fn wanted_scopes() -> Seq<Seq<char>> {
    seq!["operator.read"@, "operator.approvals"@, "operator.admin"@]
}

/// What a device signs to answer the challenge `nonce`.
pub open spec fn sign_request(
    token: Option<Seq<char>>,
    nonce: Seq<char>,
    signed_at_ms: i64,
) -> SignConnectParamsView {
    SignConnectParamsView {
        client_id: "openclaw-tui"@,
        client_mode: "ui"@,
        role: "operator"@,
        scopes: wanted_scopes(),
        token,
        nonce,
        signed_at_ms,
    }
}

/// The `client` member of the connect request.
pub open spec fn client_member(c: ClientInfoView) -> JsonView {
    JsonView::Object(
        seq![
            ("id"@, JsonView::Str("openclaw-tui"@)),
            ("displayName"@, JsonView::Str("Periclaw"@)),
            ("version"@, JsonView::Str(c.version)),
            ("platform"@, JsonView::Str(c.platform)),
            ("mode"@, JsonView::Str("ui"@)),
            ("instanceId"@, JsonView::Str(c.instance_id)),
        ],
    )
}

/// The `scopes` member of the connect request.
pub open spec fn scopes_member() -> JsonView {
    JsonView::Array(
        seq![
            JsonView::Str("operator.read"@),
            JsonView::Str("operator.approvals"@),
            JsonView::Str("operator.admin"@),
        ],
    )
}

/// The members that every connect request has.
pub open spec fn base_params(c: ClientInfoView) -> Seq<(Seq<char>, JsonView)> {
    seq![
        ("minProtocol"@, JsonView::Int(PROTOCOL)),
        ("maxProtocol"@, JsonView::Int(PROTOCOL)),
        ("client"@, client_member(c)),
        ("role"@, JsonView::Str("operator"@)),
        ("scopes"@, scopes_member()),
        ("caps"@, JsonView::Array(Seq::empty())),
    ]
}

/// The members of a connect request: the token is added under `auth` when
/// there is one, the device's answer under `device` when there is a device.
pub open spec fn connect_params(
    c: ClientInfoView,
    token: Option<Seq<char>>,
    device: Option<JsonView>,
) -> JsonView {
    let with_auth = match token {
        Some(t) => base_params(c).push(
            ("auth"@, JsonView::Object(seq![("token"@, JsonView::Str(t))])),
        ),
        None => base_params(c),
    };
    JsonView::Object(
        match device {
            Some(d) => with_auth.push(("device"@, d)),
            None => with_auth,
        },
    )
}

/// The `device` member: the device with its answer to the challenge.
pub open spec fn device_member(
    d: DeviceIdentity,
    token: Option<Seq<char>>,
    nonce: Seq<char>,
    signed_at_ms: i64,
) -> JsonView {
    let signed = answer_to(d.seed_bytes(), d.id_text(), sign_request(token, nonce, signed_at_ms));
    JsonView::Object(
        seq![
            ("id"@, JsonView::Str(d.id_text())),
            ("publicKey"@, JsonView::Str(base64url(d.public_bytes()))),
            ("signature"@, JsonView::Str(signed.signature_base64url)),
            ("signedAt"@, JsonView::Int(signed.signed_at_ms)),
            ("nonce"@, JsonView::Str(nonce)),
        ],
    )
}

/// A request envelope.
pub open spec fn request(id: Seq<char>, method: Seq<char>, params: JsonView) -> JsonView {
    JsonView::Object(
        seq![
            ("type"@, JsonView::Str("req"@)),
            ("id"@, JsonView::Str(id)),
            ("method"@, JsonView::Str(method)),
            ("params"@, params),
        ],
    )
}

/// Builds a request envelope.
pub fn request_frame(id: &str, method: &str, params: Json) -> (r: Json)
    ensures
        r.deep_view() == request(id@, method@, params.deep_view()),
{
    let mut fs: Vec<JsonField> = no_items();
    add_field(&mut fs, "type", Json::text("req"));
    add_field(&mut fs, "id", Json::text(id));
    add_field(&mut fs, "method", Json::text(method));
    add_field(&mut fs, "params", params);
    assert(fs.deep_view() =~= request(id@, method@, params.deep_view())->Object_0);
    Json::object(fs)
}

fn client_json(client: &ClientInfo) -> (r: Json)
    ensures
        r.deep_view() == client_member(client.deep_view()),
{
    let mut fs: Vec<JsonField> = no_items();
    add_field(&mut fs, "id", Json::text("openclaw-tui"));
    add_field(&mut fs, "displayName", Json::text("Periclaw"));
    add_field(&mut fs, "version", Json::text(client.version.as_str()));
    add_field(&mut fs, "platform", Json::text(client.platform.as_str()));
    add_field(&mut fs, "mode", Json::text("ui"));
    add_field(&mut fs, "instanceId", Json::text(client.instance_id.as_str()));
    assert(fs.deep_view() =~= client_member(client.deep_view())->Object_0);
    Json::object(fs)
}

fn scopes_json() -> (r: Json)
    ensures
        r.deep_view() == scopes_member(),
{
    let mut scopes: Vec<Json> = no_items();
    push_to(&mut scopes, Json::text("operator.read"));
    push_to(&mut scopes, Json::text("operator.approvals"));
    push_to(&mut scopes, Json::text("operator.admin"));
    assert(scopes.deep_view() =~= scopes_member()->Array_0);
    Json::array(scopes)
}

fn device_json(d: &DeviceIdentity, token: &Option<String>, nonce: &str, signed_at_ms: i64) -> (r:
    Json)
    ensures
        r.deep_view() == device_member(*d, token.deep_view(), nonce@, signed_at_ms),
{
    let mut scopes: Vec<String> = no_items();
    push_to(&mut scopes, "operator.read".to_owned());
    push_to(&mut scopes, "operator.approvals".to_owned());
    push_to(&mut scopes, "operator.admin".to_owned());
    assert(scopes.deep_view() =~= wanted_scopes());
    let params = SignConnectParams {
        client_id: "openclaw-tui".to_owned(),
        client_mode: "ui".to_owned(),
        role: "operator".to_owned(),
        scopes,
        token: token.clone(),
        nonce: nonce.to_owned(),
        signed_at_ms,
    };
    let signed = d.sign_connect(&params);
    let public = d.public_key_base64url();
    let mut fs: Vec<JsonField> = no_items();
    add_field(&mut fs, "id", Json::text(d.device_id()));
    add_field(&mut fs, "publicKey", Json::text(public.as_str()));
    add_field(&mut fs, "signature", Json::text(signed.signature_base64url.as_str()));
    add_field(&mut fs, "signedAt", Json::Int(signed.signed_at_ms));
    add_field(&mut fs, "nonce", Json::text(nonce));
    assert(fs.deep_view() =~= device_member(*d, token.deep_view(), nonce@, signed_at_ms)->Object_0);
    Json::object(fs)
}

/// Builds the connect request: the client, the scopes it asks for, the token
/// if there is one, and the device's signed answer to the challenge if there
/// is a device.
pub fn connect_frame(
    client: &ClientInfo,
    token: &Option<String>,
    device: Option<&DeviceIdentity>,
    nonce: &str,
    signed_at_ms: i64,
) -> (r: Json)
    ensures
        r.deep_view() == request(
            "connect-1"@,
            "connect"@,
            connect_params(
                client.deep_view(),
                token.deep_view(),
                match device {
                    Some(d) => Some(device_member(*d, token.deep_view(), nonce@, signed_at_ms)),
                    None => None,
                },
            ),
        ),
{
    let mut fs: Vec<JsonField> = no_items();
    add_field(&mut fs, "minProtocol", Json::Int(PROTOCOL));
    add_field(&mut fs, "maxProtocol", Json::Int(PROTOCOL));
    add_field(&mut fs, "client", client_json(client));
    add_field(&mut fs, "role", Json::text("operator"));
    add_field(&mut fs, "scopes", scopes_json());
    add_field(&mut fs, "caps", Json::array(no_items()));
    assert(fs.deep_view() =~= base_params(client.deep_view()));
    if let Some(t) = token {
        let mut auth: Vec<JsonField> = no_items();
        add_field(&mut auth, "token", Json::text(t.as_str()));
        assert(auth.deep_view() =~= seq![("token"@, JsonView::Str(t@))]);
        add_field(&mut fs, "auth", Json::object(auth));
    }
    if let Some(d) = device {
        add_field(&mut fs, "device", device_json(d, token, nonce, signed_at_ms));
    }
    request_frame("connect-1", "connect", Json::object(fs))
}

// ---------------------------------------------------------------------
// The answer
// ---------------------------------------------------------------------

/// What a frame after the connect request means.
#[derive(Debug, PartialEq)]
pub enum Hello {
    /// Not the answer yet.
    Wait,
    /// The gateway took the connection, with these scopes.
    Accepted { conn_id: String, scopes: Vec<String> },
}

/// What [`Hello`] holds, as mathematical values.
#[verifier::ext_equal]
pub enum HelloView {
    Wait,
    Accepted { conn_id: Seq<char>, scopes: Seq<Seq<char>> },
}

impl DeepView for Hello {
    type V = HelloView;

    open spec fn deep_view(&self) -> HelloView {
        match *self {
            Hello::Wait => HelloView::Wait,
            Hello::Accepted { conn_id, scopes } => HelloView::Accepted {
                conn_id: conn_id.deep_view(),
                scopes: scopes.deep_view(),
            },
        }
    }
}

impl Clone for Hello {
    fn clone(&self) -> (r: Hello)
        ensures
            r.deep_view() == self.deep_view(),
    {
        match self {
            Hello::Wait => Hello::Wait,
            Hello::Accepted { conn_id, scopes } => Hello::Accepted { conn_id: conn_id.clone(), scopes: scopes.clone() },
        }
    }
}

/// The pair request that a refusal carries.
pub open spec fn pairing_in(v: JsonView, device_id: Option<Seq<char>>) -> Option<PairRequestView> {
    let details = member(v.field("error"@), "details"@);
    let kind = if text_in(member(details, "reason"@)) == Some("scope-upgrade"@) {
        Some(PairRequestKind::ScopeUpgrade)
    } else if text_in(member(details, "reason"@)) == Some("not-paired"@) {
        Some(PairRequestKind::FirstPair)
    } else {
        None
    };
    match (text_in(member(details, "requestId"@)), kind) {
        (Some(request_id), Some(kind)) => if text_in(member(details, "code"@)) == Some(
            "PAIRING_REQUIRED"@,
        ) {
            Some(
                PairRequestView {
                    request_id,
                    device_id,
                    remediation_hint: text_in(member(details, "remediationHint"@)),
                    kind,
                },
            )
        } else {
            None
        },
        _ => None,
    }
}

/// Whether a frame is the accepting answer to the connect request.
pub open spec fn is_hello(v: JsonView) -> bool {
    flag_in(v.field("ok"@)) == Some(true) && text_in(member(v.field("payload"@), "type"@)) == Some(
        "hello-ok"@,
    )
}

/// The scopes that an accepting answer grants.
pub open spec fn granted_scopes(v: JsonView) -> Seq<Seq<char>> {
    match items_in(member(member(v.field("payload"@), "auth"@), "scopes"@)) {
        Some(a) => a.filter_map(|x: JsonView| x.as_text()),
        None => Seq::empty(),
    }
}

/// The name the gateway gives the connection.
pub open spec fn connection_id(v: JsonView) -> Seq<char> {
    match text_in(member(member(v.field("payload"@), "server"@), "connId"@)) {
        Some(id) => id,
        None => "?"@,
    }
}

/// What a frame after the connect request means. A refusal is an error: a
/// pair request that the operator has to approve, or else the frame's text.
pub open spec fn hello_in(v: JsonView, txt: Seq<char>, device_id: Option<Seq<char>>) -> Result<
    HelloView,
    SessionErrorView,
> {
    if text_in(v.field("type"@)) == Some("res"@) && text_in(v.field("id"@)) == Some("connect-1"@) {
        if is_hello(v) {
            Ok(HelloView::Accepted { conn_id: connection_id(v), scopes: granted_scopes(v) })
        } else {
            match pairing_in(v, device_id) {
                Some(p) => Err(SessionErrorView::PairingRequired(p)),
                None => Err(SessionErrorView::HandshakeRejected(txt)),
            }
        }
    } else {
        Ok(HelloView::Wait)
    }
}

fn copy_text(o: Option<&String>) -> (r: Option<String>)
    ensures
        r.deep_view() == o.deep_view(),
{
    match o {
        Some(s) => Some(s.clone()),
        None => None,
    }
}

fn read_pairing(v: &Json, device_id: &Option<String>) -> (r: Option<PairRequest>)
    ensures
        r.deep_view() == pairing_in(v.deep_view(), device_id.deep_view()),
{
    let details = get_in(v.get("error"), "details");
    let kind = if str_is(get_in(details, "reason"), "scope-upgrade") {
        PairRequestKind::ScopeUpgrade
    } else if str_is(get_in(details, "reason"), "not-paired") {
        PairRequestKind::FirstPair
    } else {
        return None;
    };
    match str_in(get_in(details, "requestId")) {
        Some(id) => if str_is(get_in(details, "code"), "PAIRING_REQUIRED") {
            Some(
                PairRequest {
                    request_id: id.clone(),
                    device_id: device_id.clone(),
                    remediation_hint: copy_text(str_in(get_in(details, "remediationHint"))),
                    kind,
                },
            )
        } else {
            None
        },
        None => None,
    }
}

fn read_scopes(v: &Json) -> (r: Vec<String>)
    ensures
        r.deep_view() == granted_scopes(v.deep_view()),
{
    let mut out: Vec<String> = no_items();
    if let Some(a) = array_in(get_in(get_in(v.get("payload"), "auth"), "scopes")) {
        let ghost f = |x: JsonView| x.as_text();
        let ghost all = a.deep_view();
        let mut i: usize = 0;
        assert(out.deep_view() =~= all.take(0).filter_map(f));
        while i < a.len()
            invariant
                i <= a@.len(),
                all == a.deep_view(),
                f == (|x: JsonView| x.as_text()),
                out.deep_view() == all.take(i as int).filter_map(f),
            decreases a@.len() - i,
        {
            assert(all[i as int] == a@[i as int].deep_view());
            proof {
                filter_map_step(all, i as int, f);
            }
            if let Some(t) = a[i].as_str() {
                push_to(&mut out, t.clone());
            }
            i = i + 1;
        }
        assert(all.take(i as int) =~= all);
    }
    out
}

/// Reads a frame after the connect request. `txt` is the frame's own text,
/// `device_id` the id of this device.
pub fn read_hello(v: &Json, txt: &str, device_id: &Option<String>) -> (r: Result<
    Hello,
    SessionError,
>)
    ensures
        same_outcome(r, hello_in(v.deep_view(), txt@, device_id.deep_view())),
{
    if !(str_is(v.get("type"), "res") && str_is(v.get("id"), "connect-1")) {
        return Ok(Hello::Wait);
    }
    let ok = match bool_in(v.get("ok")) {
        Some(b) => b,
        None => false,
    };
    if ok && str_is(get_in(v.get("payload"), "type"), "hello-ok") {
        let conn_id = match str_in(get_in(get_in(v.get("payload"), "server"), "connId")) {
            Some(id) => id.clone(),
            None => "?".to_owned(),
        };
        return Ok(Hello::Accepted { conn_id, scopes: read_scopes(v) });
    }
    match read_pairing(v, device_id) {
        Some(p) => Err(SessionError::PairingRequired(p)),
        None => Err(SessionError::HandshakeRejected(txt.to_owned())),
    }
}

/// What a text after the connect request means.
pub open spec fn hello_of_text(txt: Seq<char>, device_id: Option<Seq<char>>) -> Result<
    HelloView,
    SessionErrorView,
> {
    match parsed(txt) {
        Ok(v) => hello_in(v, txt, device_id),
        Err(e) => Err(SessionErrorView::Json(e)),
    }
}

/// Reads a text frame after the connect request.
pub fn await_hello(txt: &str, device_id: &Option<String>) -> (r: Result<Hello, SessionError>)
    ensures
        same_outcome(r, hello_of_text(txt@, device_id.deep_view())),
{
    match parse(txt) {
        Ok(v) => read_hello(&v, txt, device_id),
        Err(e) => Err(SessionError::Json(e)),
    }
}

// ---------------------------------------------------------------------
// The socket
// ---------------------------------------------------------------------

/// What the socket gave, or that the time for it ran out.
#[derive(Debug, PartialEq)]
pub enum Incoming {
    /// A text frame.
    Text(String),
    /// A frame that says nothing here.
    Other,
    /// A close frame, with its reason.
    Closed(Option<String>),
    /// The socket failed, for this reason.
    Failed(String),
    /// The socket has no more frames.
    Ended,
    TimedOut,
}

/// What [`Incoming`] holds, as mathematical values.
#[verifier::ext_equal]
pub enum IncomingView {
    Text(Seq<char>),
    Other,
    Closed(Option<Seq<char>>),
    Failed(Seq<char>),
    Ended,
    TimedOut,
}

impl DeepView for Incoming {
    type V = IncomingView;

    open spec fn deep_view(&self) -> IncomingView {
        match *self {
            Incoming::Text(a0) => IncomingView::Text(a0.deep_view()),
            Incoming::Other => IncomingView::Other,
            Incoming::Closed(a0) => IncomingView::Closed(a0.deep_view()),
            Incoming::Failed(a0) => IncomingView::Failed(a0.deep_view()),
            Incoming::Ended => IncomingView::Ended,
            Incoming::TimedOut => IncomingView::TimedOut,
        }
    }
}

/// What anything but a text frame means during the handshake: nothing, or the
/// end of the session.
pub open spec fn broken_handshake(e: IncomingView, closed: Seq<char>) -> Option<SessionErrorView> {
    match e {
        IncomingView::Text(_) => None,
        IncomingView::Other => None,
        IncomingView::Closed(Some(reason)) => Some(SessionErrorView::HandshakeRejected(reason)),
        IncomingView::Closed(None) => Some(SessionErrorView::HandshakeRejected(closed)),
        IncomingView::Failed(why) => Some(SessionErrorView::Connect(why)),
        IncomingView::Ended => Some(SessionErrorView::SocketClosed),
        IncomingView::TimedOut => Some(SessionErrorView::HandshakeTimeout),
    }
}

fn handshake_break(e: Incoming, closed: &str) -> (r: Option<SessionError>)
    ensures
        r.deep_view() == broken_handshake(e.deep_view(), closed@),
{
    match e {
        Incoming::Text(_) => None,
        Incoming::Other => None,
        Incoming::Closed(Some(reason)) => Some(SessionError::HandshakeRejected(reason)),
        Incoming::Closed(None) => Some(SessionError::HandshakeRejected(closed.to_owned())),
        Incoming::Failed(why) => Some(SessionError::Connect(why)),
        Incoming::Ended => Some(SessionError::SocketClosed),
        Incoming::TimedOut => Some(SessionError::HandshakeTimeout),
    }
}

/// What the socket's news means before the connect request: the nonce of the
/// challenge, nothing yet, or the end of the session.
pub open spec fn challenge_after(e: IncomingView) -> Result<Option<Seq<char>>, SessionErrorView> {
    match e {
        IncomingView::Text(txt) => challenge_of_text(txt),
        _ => match broken_handshake(e, "closed before challenge"@) {
            Some(why) => Err(why),
            None => Ok(None),
        },
    }
}

/// Takes the socket's news before the connect request.
pub fn on_challenge(e: Incoming) -> (r: Result<Option<String>, SessionError>)
    ensures
        same_outcome(r, challenge_after(e.deep_view())),
{
    match e {
        Incoming::Text(txt) => await_challenge(txt.as_str()),
        other => match handshake_break(other, "closed before challenge") {
            Some(why) => Err(why),
            None => Ok(None),
        },
    }
}

/// What the socket's news means after the connect request: the answer,
/// nothing yet, or the end of the session.
pub open spec fn hello_after(e: IncomingView, device_id: Option<Seq<char>>) -> Result<
    HelloView,
    SessionErrorView,
> {
    match e {
        IncomingView::Text(txt) => hello_of_text(txt, device_id),
        _ => match broken_handshake(e, "closed during handshake"@) {
            Some(why) => Err(why),
            None => Ok(HelloView::Wait),
        },
    }
}

/// Takes the socket's news after the connect request.
pub fn on_hello(e: Incoming, device_id: &Option<String>) -> (r: Result<Hello, SessionError>)
    ensures
        same_outcome(r, hello_after(e.deep_view(), device_id.deep_view())),
{
    match e {
        Incoming::Text(txt) => await_hello(txt.as_str(), device_id),
        other => match handshake_break(other, "closed during handshake") {
            Some(why) => Err(why),
            None => Ok(Hello::Wait),
        },
    }
}

/// The value of the `Authorization` header for a token.
pub fn bearer(token: &str) -> (r: String)
    ensures
        r@ == "Bearer "@ + token@,
{
    cat("Bearer ", token)
}

/// No handshake outlasts its time, and none is given up while nothing has
/// gone wrong.
pub proof fn handshake_ends_on_trouble(device_id: Option<Seq<char>>)
    ensures
        challenge_after(IncomingView::TimedOut) == Err::<Option<Seq<char>>, SessionErrorView>(
            SessionErrorView::HandshakeTimeout,
        ),
        hello_after(IncomingView::TimedOut, device_id) == Err::<HelloView, SessionErrorView>(
            SessionErrorView::HandshakeTimeout,
        ),
        challenge_after(IncomingView::Other) is Ok,
        hello_after(IncomingView::Other, device_id) == Ok::<HelloView, SessionErrorView>(
            HelloView::Wait,
        ),
{
}

/// What the UI is told when the gateway takes the connection.
pub open spec fn accepted_news() -> Seq<WsEventView> {
    seq![WsEventView::PairRequestPending(None), WsEventView::Connected]
}

/// What the UI is told when the gateway takes the connection: any pairing
/// notice is cleared, and the connection is up.
pub fn accepted_events() -> (r: Vec<WsEvent>)
    ensures
        r.deep_view() == accepted_news(),
{
    let mut out: Vec<WsEvent> = no_items();
    push_to(&mut out, WsEvent::PairRequestPending(None));
    push_to(&mut out, WsEvent::Connected);
    out
}

// ---------------------------------------------------------------------
// Trying again
// ---------------------------------------------------------------------

/// What to do after a session has ended: what to tell the UI, how long to
/// wait (a command from the UI ends the wait early), and the wait to double
/// from next time.
#[derive(Debug, PartialEq)]
pub struct Retry {
    pub events: Vec<WsEvent>,
    pub wait_ms: u64,
    pub backoff_ms: u64,
}

/// What [`Retry`] holds, as mathematical values.
#[verifier::ext_equal]
pub struct RetryView {
    pub events: Seq<WsEventView>,
    pub wait_ms: u64,
    pub backoff_ms: u64,
}

impl DeepView for Retry {
    type V = RetryView;

    open spec fn deep_view(&self) -> RetryView {
        RetryView {
            events: self.events.deep_view(),
            wait_ms: self.wait_ms.deep_view(),
            backoff_ms: self.backoff_ms.deep_view(),
        }
    }
}

/// Twice the wait, up to the longest.
pub open spec fn doubled(backoff_ms: u64) -> u64 {
    if backoff_ms * 2 < MAX_BACKOFF_MS {
        (backoff_ms * 2) as u64
    } else {
        MAX_BACKOFF_MS
    }
}

/// The reason shown while a pair request waits for its approval.
pub open spec fn awaiting(p: PairRequestView) -> Seq<char> {
    match p.kind {
        PairRequestKind::ScopeUpgrade => "awaiting scope-upgrade approval ("@ + p.request_id
            + ")"@,
        PairRequestKind::FirstPair => "awaiting pairing approval ("@ + p.request_id + ")"@,
    }
}

/// What to do after a session ended with `outcome`, when the wait was at
/// `backoff_ms`. A pair request waits long and leaves the wait as it was; a
/// clean end starts over.
pub open spec fn retry_after(outcome: Option<SessionErrorView>, backoff_ms: u64) -> RetryView {
    match outcome {
        None => RetryView {
            events: Seq::empty(),
            wait_ms: INITIAL_BACKOFF_MS,
            backoff_ms: doubled(INITIAL_BACKOFF_MS),
        },
        Some(SessionErrorView::PairingRequired(p)) => RetryView {
            events: seq![
                WsEventView::PairRequestPending(Some(p)),
                WsEventView::Disconnected(awaiting(p)),
            ],
            wait_ms: PAIRING_BACKOFF_MS,
            backoff_ms,
        },
        Some(e) => RetryView {
            events: seq![WsEventView::Disconnected(e.told())],
            wait_ms: backoff_ms,
            backoff_ms: doubled(backoff_ms),
        },
    }
}

/// Decides what follows the end of a session.
pub fn after_session(outcome: Option<SessionError>, backoff_ms: u64) -> (r: Retry)
    requires
        backoff_ms <= MAX_BACKOFF_MS,
    ensures
        r.deep_view() == retry_after(outcome.deep_view(), backoff_ms),
{
    let mut events: Vec<WsEvent> = no_items();
    match outcome {
        None => Retry {
            events,
            wait_ms: INITIAL_BACKOFF_MS,
            backoff_ms: INITIAL_BACKOFF_MS * 2,
        },
        Some(SessionError::PairingRequired(p)) => {
            let reason = match p.kind {
                PairRequestKind::ScopeUpgrade => cat3(
                    "awaiting scope-upgrade approval (",
                    p.request_id.as_str(),
                    ")",
                ),
                PairRequestKind::FirstPair => cat3(
                    "awaiting pairing approval (",
                    p.request_id.as_str(),
                    ")",
                ),
            };
            push_to(&mut events, WsEvent::PairRequestPending(Some(p)));
            push_to(&mut events, WsEvent::Disconnected(reason));
            Retry { events, wait_ms: PAIRING_BACKOFF_MS, backoff_ms }
        },
        Some(e) => {
            push_to(&mut events, WsEvent::Disconnected(e.message()));
            let next: u64 = if backoff_ms * 2 < MAX_BACKOFF_MS {
                backoff_ms * 2
            } else {
                MAX_BACKOFF_MS
            };
            Retry { events, wait_ms: backoff_ms, backoff_ms: next }
        },
    }
}

/// The wait never leaves its bounds, and a failure never shortens it.
pub proof fn backoff_stays_in_bounds(outcome: Option<SessionErrorView>, backoff_ms: u64)
    requires
        INITIAL_BACKOFF_MS <= backoff_ms <= MAX_BACKOFF_MS,
    ensures
        INITIAL_BACKOFF_MS <= retry_after(outcome, backoff_ms).backoff_ms <= MAX_BACKOFF_MS,
        outcome is Some ==> retry_after(outcome, backoff_ms).backoff_ms >= backoff_ms,
{
}

/// Every failed attempt tells the UI that the connection is down.
pub proof fn failure_is_told(e: SessionErrorView, backoff_ms: u64)
    ensures
        retry_after(Some(e), backoff_ms).events.len() > 0,
        retry_after(Some(e), backoff_ms).events.last() is Disconnected,
{
}

} // verus!
