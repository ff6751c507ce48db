//! What goes over the wire, said of every request, event and response.
use vstd::prelude::*;

use crate::crypto::{base64url, ed25519_signature};
use crate::device_identity::{challenge_text, DeviceIdentity};
use crate::json::{member, text_in, JsonView};
use crate::keyed::{key_index_bounds, key_index_unique, lookup};
use crate::net::commands::GatewayCommandView;
use crate::net::handshake::{connect_params, device_member, request, sign_request, ClientInfoView};
use crate::net::openclaw::{method_of, params_of, rpc};
use crate::text::{decimal, decimal_injective, joined, signed_decimal};

verus! {

// ---------------------------------------------------------------------
// Reading an object
// ---------------------------------------------------------------------

/// The first entry under a key is what the key leads to.
proof fn found<T>(fs: Seq<(Seq<char>, T)>, i: int, k: Seq<char>)
    requires
        0 <= i < fs.len(),
        fs[i].0 == k,
        forall|j: int| 0 <= j < i ==> fs[j].0 != k,
    ensures
        lookup(fs, k) == Some(fs[i].1),
{
    key_index_unique(fs, k, i);
}

/// A key that no entry has leads to nothing.
proof fn absent<T>(fs: Seq<(Seq<char>, T)>, k: Seq<char>)
    requires
        forall|j: int| 0 <= j < fs.len() ==> fs[j].0 != k,
    ensures
        lookup(fs, k) is None,
{
    key_index_bounds(fs, k);
}

/// A request says what it is, and carries its number, method and parameters.
pub proof fn request_carries(id: Seq<char>, method: Seq<char>, params: JsonView)
    ensures
        ({
            let frame = request(id, method, params);
            &&& frame.field("type"@) == Some(JsonView::Str("req"@))
            &&& frame.field("id"@) == Some(JsonView::Str(id))
            &&& frame.field("method"@) == Some(JsonView::Str(method))
            &&& frame.field("params"@) == Some(params)
        }),
{
    reveal_strlit("type");
    reveal_strlit("id");
    reveal_strlit("method");
    reveal_strlit("params");
    assert("type"@.len() == 4);
    assert("id"@.len() == 2);
    assert("method"@.len() == 6);
    assert("params"@.len() == 6);
    assert("method"@[0] != "params"@[0]);
    let fs = request(id, method, params)->Object_0;
    found(fs, 0, "type"@);
    found(fs, 1, "id"@);
    found(fs, 2, "method"@);
    found(fs, 3, "params"@);
}


// ---------------------------------------------------------------------
// The connect request
// ---------------------------------------------------------------------

proof fn connect_members(c: ClientInfoView, token: Option<Seq<char>>, device: Option<JsonView>)
    ensures
        ({
            let p = connect_params(c, token, device);
            &&& p.field("minProtocol"@) == Some(JsonView::Int(3))
            &&& p.field("maxProtocol"@) == Some(JsonView::Int(3))
            &&& p.field("role"@) == Some(JsonView::Str("operator"@))
            &&& p.field("client"@) is Some
            &&& p.field("client"@) == Some(crate::net::handshake::client_member(c))
            &&& p.field("scopes"@) == Some(crate::net::handshake::scopes_member())
            &&& p.field("auth"@) is Some <==> token is Some
            &&& token matches Some(t) ==> p.field("auth"@) == Some(
                JsonView::Object(seq![("token"@, JsonView::Str(t))]),
            )
            &&& p.field("device"@) == device
        }),
{
    reveal_strlit("minProtocol");
    reveal_strlit("maxProtocol");
    reveal_strlit("client");
    reveal_strlit("role");
    reveal_strlit("scopes");
    reveal_strlit("caps");
    reveal_strlit("auth");
    reveal_strlit("device");
    assert("minProtocol"@.len() == 11);
    assert("maxProtocol"@.len() == 11);
    assert("client"@.len() == 6);
    assert("role"@.len() == 4);
    assert("scopes"@.len() == 6);
    assert("caps"@.len() == 4);
    assert("auth"@.len() == 4);
    assert("device"@.len() == 6);
    assert("minProtocol"@[1] != "maxProtocol"@[1]);
    assert("client"@[0] != "scopes"@[0]);
    assert("client"@[0] != "device"@[0]);
    assert("role"@[0] != "caps"@[0]);
    assert("role"@[0] != "auth"@[0]);
    assert("scopes"@[0] != "device"@[0]);
    assert("caps"@[0] != "auth"@[0]);
    let fs = connect_params(c, token, device)->Object_0;
    found(fs, 0, "minProtocol"@);
    found(fs, 1, "maxProtocol"@);
    found(fs, 2, "client"@);
    found(fs, 3, "role"@);
    found(fs, 4, "scopes"@);
    match token {
        Some(t) => {
            found(fs, 6, "auth"@);
            if device is Some {
                found(fs, 7, "device"@);
            } else {
                absent(fs, "device"@);
            }
        },
        None => {
            absent(fs, "auth"@);
            if device is Some {
                found(fs, 6, "device"@);
            } else {
                absent(fs, "device"@);
            }
        },
    }
}

proof fn client_members(c: ClientInfoView)
    ensures
        ({
            let m = crate::net::handshake::client_member(c);
            &&& m.field("id"@) == Some(JsonView::Str("openclaw-tui"@))
            &&& m.field("displayName"@) == Some(JsonView::Str("Periclaw"@))
            &&& m.field("version"@) == Some(JsonView::Str(c.version))
            &&& m.field("platform"@) == Some(JsonView::Str(c.platform))
            &&& m.field("mode"@) == Some(JsonView::Str("ui"@))
            &&& m.field("instanceId"@) == Some(JsonView::Str(c.instance_id))
        }),
{
    reveal_strlit("id");
    reveal_strlit("displayName");
    reveal_strlit("version");
    reveal_strlit("platform");
    reveal_strlit("mode");
    reveal_strlit("instanceId");
    assert("id"@.len() == 2);
    assert("displayName"@.len() == 11);
    assert("version"@.len() == 7);
    assert("platform"@.len() == 8);
    assert("mode"@.len() == 4);
    assert("instanceId"@.len() == 10);
    let fs = crate::net::handshake::client_member(c)->Object_0;
    found(fs, 0, "id"@);
    found(fs, 1, "displayName"@);
    found(fs, 2, "version"@);
    found(fs, 3, "platform"@);
    found(fs, 4, "mode"@);
    found(fs, 5, "instanceId"@);
}

/// The scopes that the connect request asks for are, in order, exactly those
/// that the device's signature covers, and these let the operator read,
/// approve and administer.
pub proof fn asked_scopes_are_signed(
    c: ClientInfoView,
    token: Option<Seq<char>>,
    device: Option<JsonView>,
    nonce: Seq<char>,
    signed_at_ms: i64,
)
    ensures
        ({
            let frame = request("connect-1"@, "connect"@, connect_params(c, token, device));
            let signed = sign_request(token, nonce, signed_at_ms).scopes;
            &&& member(frame.field("params"@), "scopes"@) == Some(
                JsonView::Array(signed.map_values(|s: Seq<char>| JsonView::Str(s))),
            )
            &&& signed.len() == 3
            &&& signed.contains("operator.read"@)
            &&& signed.contains("operator.approvals"@)
            &&& signed.contains("operator.admin"@)
        }),
{
    request_carries("connect-1"@, "connect"@, connect_params(c, token, device));
    connect_members(c, token, device);
    let signed = sign_request(token, nonce, signed_at_ms).scopes;
    assert(crate::net::handshake::scopes_member()->Array_0 =~= signed.map_values(
        |s: Seq<char>| JsonView::Str(s),
    ));
    assert(signed[0] == "operator.read"@);
    assert(signed[1] == "operator.approvals"@);
    assert(signed[2] == "operator.admin"@);
}

/// The connect request names the protocol, the role and the client as they
/// are, carries the token exactly when there is one, and the device exactly
/// when there is one.
pub proof fn connect_request_says_who_asks(
    c: ClientInfoView,
    token: Option<Seq<char>>,
    device: Option<JsonView>,
)
    ensures
        ({
            let p = request("connect-1"@, "connect"@, connect_params(c, token, device)).field(
                "params"@,
            );
            let client = member(p, "client"@);
            &&& member(p, "minProtocol"@) == Some(JsonView::Int(3))
            &&& member(p, "maxProtocol"@) == Some(JsonView::Int(3))
            &&& text_in(member(p, "role"@)) == Some("operator"@)
            &&& text_in(member(client, "id"@)) == Some("openclaw-tui"@)
            &&& text_in(member(client, "mode"@)) == Some("ui"@)
            &&& text_in(member(client, "displayName"@)) == Some("Periclaw"@)
            &&& text_in(member(client, "version"@)) == Some(c.version)
            &&& text_in(member(client, "platform"@)) == Some(c.platform)
            &&& text_in(member(client, "instanceId"@)) == Some(c.instance_id)
            &&& text_in(member(member(p, "auth"@), "token"@)) == token
            &&& member(p, "auth"@) is Some <==> token is Some
            &&& member(p, "device"@) == device
        }),
{
    request_carries("connect-1"@, "connect"@, connect_params(c, token, device));
    connect_members(c, token, device);
    client_members(c);
    if let Some(t) = token {
        found(seq![("token"@, JsonView::Str(t))], 0, "token"@);
    }
}

/// The text that a device signs for a connection: the version of the form, the
/// device, the client and its mode, the role, the scopes with a comma between
/// each two, the time, the token if there is one and the nonce, with a bar
/// between each two.
pub open spec fn signed_text(
    id: Seq<char>,
    token: Option<Seq<char>>,
    nonce: Seq<char>,
    signed_at_ms: i64,
) -> Seq<char> {
    let bar = "|"@;
    let scopes = "operator.read"@ + ","@ + "operator.approvals"@ + ","@ + "operator.admin"@;
    let held = match token {
        Some(t) => t,
        None => Seq::empty(),
    };
    "v2"@ + bar + id + bar + "openclaw-tui"@ + bar + "ui"@ + bar + "operator"@ + bar + scopes + bar
        + signed_decimal(signed_at_ms as int) + bar + held + bar + nonce
}

/// The device signs the challenge together with what the connect request
/// says of the client, the role, the scopes and the token, and the request
/// carries the time and the nonce that were signed beside the signature.
pub proof fn signature_covers_the_request(
    d: DeviceIdentity,
    token: Option<Seq<char>>,
    nonce: Seq<char>,
    signed_at_ms: i64,
)
    ensures
        ({
            let m = device_member(d, token, nonce, signed_at_ms);
            let signed = signed_text(d.id_text(), token, nonce, signed_at_ms);
            &&& text_in(m.field("id"@)) == Some(d.id_text())
            &&& text_in(m.field("publicKey"@)) == Some(base64url(d.public_bytes()))
            &&& text_in(m.field("signature"@)) == Some(
                base64url(ed25519_signature(d.seed_bytes(), vstd::utf8::encode_utf8(signed))),
            )
            &&& m.field("signedAt"@) == Some(JsonView::Int(signed_at_ms))
            &&& text_in(m.field("nonce"@)) == Some(nonce)
        }),
{
    reveal_strlit("id");
    reveal_strlit("publicKey");
    reveal_strlit("signature");
    reveal_strlit("signedAt");
    reveal_strlit("nonce");
    assert("id"@.len() == 2);
    assert("publicKey"@.len() == 9);
    assert("signature"@.len() == 9);
    assert("signedAt"@.len() == 8);
    assert("nonce"@.len() == 5);
    assert("publicKey"@[0] != "signature"@[0]);
    let fs = device_member(d, token, nonce, signed_at_ms)->Object_0;
    found(fs, 0, "id"@);
    found(fs, 1, "publicKey"@);
    found(fs, 2, "signature"@);
    found(fs, 3, "signedAt"@);
    found(fs, 4, "nonce"@);
    challenge_is_spelled_out(d.id_text(), token, nonce, signed_at_ms);
}

proof fn joined_push(parts: Seq<Seq<char>>, x: Seq<char>, sep: Seq<char>)
    requires
        parts.len() > 0,
    ensures
        joined(parts.push(x), sep) == joined(parts, sep) + sep + x,
{
    assert(parts.push(x).drop_last() =~= parts);
}

proof fn challenge_is_spelled_out(
    id: Seq<char>,
    token: Option<Seq<char>>,
    nonce: Seq<char>,
    signed_at_ms: i64,
)
    ensures
        challenge_text(id, sign_request(token, nonce, signed_at_ms)) == signed_text(
            id,
            token,
            nonce,
            signed_at_ms,
        ),
{
    reveal_strlit("");
    assert(""@ =~= Seq::<char>::empty());
    let s1 = seq!["operator.read"@];
    let s2 = s1.push("operator.approvals"@);
    joined_push(s1, "operator.approvals"@, ","@);
    joined_push(s2, "operator.admin"@, ","@);
    let scopes = "operator.read"@ + ","@ + "operator.approvals"@ + ","@ + "operator.admin"@;
    assert(joined(s2.push("operator.admin"@), ","@) == scopes);
    let held = match token {
        Some(t) => t,
        None => ""@,
    };
    let at = signed_decimal(signed_at_ms as int);
    let p1 = seq!["v2"@];
    let p2 = p1.push(id);
    let p3 = p2.push("openclaw-tui"@);
    let p4 = p3.push("ui"@);
    let p5 = p4.push("operator"@);
    let p6 = p5.push(scopes);
    let p7 = p6.push(at);
    let p8 = p7.push(held);
    joined_push(p1, id, "|"@);
    joined_push(p2, "openclaw-tui"@, "|"@);
    joined_push(p3, "ui"@, "|"@);
    joined_push(p4, "operator"@, "|"@);
    joined_push(p5, scopes, "|"@);
    joined_push(p6, at, "|"@);
    joined_push(p7, held, "|"@);
    joined_push(p8, nonce, "|"@);
    let p = sign_request(token, nonce, signed_at_ms);
    assert(p.scopes =~= s2.push("operator.admin"@));
    assert(joined(p.scopes, ","@) == scopes);
    assert(challenge_text(id, p) == joined(p8.push(nonce), "|"@)) by {
        assert(seq![
            "v2"@,
            id,
            p.client_id,
            p.client_mode,
            p.role,
            joined(p.scopes, ","@),
            signed_decimal(p.signed_at_ms as int),
            match p.token {
                Some(t) => t,
                None => ""@,
            },
            p.nonce,
        ] =~= p8.push(nonce));
    }
    assert(joined(p1, "|"@) == "v2"@);
}

// ---------------------------------------------------------------------
// Commands
// ---------------------------------------------------------------------

/// The request for a command: its frame under a number.
pub open spec fn command_frame(id: u64, c: GatewayCommandView) -> JsonView {
    rpc(id, method_of(c), params_of(c))
}

proof fn command_frame_reads(id: u64, c: GatewayCommandView)
    ensures
        text_in(command_frame(id, c).field("type"@)) == Some("req"@),
        text_in(command_frame(id, c).field("id"@)) == Some(decimal(id as nat)),
        text_in(command_frame(id, c).field("method"@)) == Some(method_of(c)),
        command_frame(id, c).field("params"@) == Some(params_of(c)),
{
    request_carries(decimal(id as nat), method_of(c), params_of(c));
}

/// Every command goes out as a request under its number, so that two numbers
/// never give one frame.
pub proof fn commands_are_numbered(id: u64, other: u64, c: GatewayCommandView)
    ensures
        text_in(command_frame(id, c).field("type"@)) == Some("req"@),
        text_in(command_frame(id, c).field("id"@)) == Some(decimal(id as nat)),
        id != other ==> command_frame(id, c) != command_frame(other, c),
{
    command_frame_reads(id, c);
    command_frame_reads(other, c);
    if decimal(id as nat) == decimal(other as nat) {
        decimal_injective(id as nat, other as nat);
    }
}


/// The request that resets a session carries the session's key, so that two
/// sessions never share a request.
pub proof fn reset_carries_its_session(id: u64, session_key: Seq<char>, other: Seq<char>)
    ensures
        ({
            let frame = command_frame(id, GatewayCommandView::ResetSession { session_key });
            let p = frame.field("params"@);
            &&& text_in(frame.field("method"@)) == Some("sessions.reset"@)
            &&& member(p, "key"@) == Some(JsonView::Str(session_key))
            &&& member(p, "reason"@) == Some(JsonView::Str("reset"@))
        }),
        session_key != other ==> command_frame(
            id,
            GatewayCommandView::ResetSession { session_key },
        ) != command_frame(id, GatewayCommandView::ResetSession { session_key: other }),
{
    reveal_strlit("key");
    reveal_strlit("reason");
    assert("key"@.len() == 3);
    assert("reason"@.len() == 6);
    command_frame_reads(id, GatewayCommandView::ResetSession { session_key });
    let fs = params_of(GatewayCommandView::ResetSession { session_key })->Object_0;
    found(fs, 0, "key"@);
    found(fs, 1, "reason"@);
    command_frame_reads(id, GatewayCommandView::ResetSession { session_key: other });
    let fs = params_of(GatewayCommandView::ResetSession { session_key: other })->Object_0;
    found(fs, 0, "key"@);
    found(fs, 1, "reason"@);
}

/// The request for a session's transcript carries the session's key, so that
/// two sessions never share a request.
pub proof fn history_request_carries_its_session(id: u64, session_key: Seq<char>, other: Seq<char>)
    ensures
        ({
            let frame = command_frame(id, GatewayCommandView::FetchSessionHistory { session_key });
            let p = frame.field("params"@);
            &&& text_in(frame.field("method"@)) == Some("chat.history"@)
            &&& member(p, "sessionKey"@) == Some(JsonView::Str(session_key))
            &&& member(p, "limit"@) == Some(JsonView::Int(200))
        }),
        session_key != other ==> command_frame(
            id,
            GatewayCommandView::FetchSessionHistory { session_key },
        ) != command_frame(id, GatewayCommandView::FetchSessionHistory { session_key: other }),
{
    reveal_strlit("sessionKey");
    reveal_strlit("limit");
    assert("sessionKey"@.len() == 10);
    assert("limit"@.len() == 5);
    command_frame_reads(id, GatewayCommandView::FetchSessionHistory { session_key });
    let fs = params_of(GatewayCommandView::FetchSessionHistory { session_key })->Object_0;
    found(fs, 0, "sessionKey"@);
    found(fs, 1, "limit"@);
    command_frame_reads(id, GatewayCommandView::FetchSessionHistory { session_key: other });
    let fs = params_of(GatewayCommandView::FetchSessionHistory { session_key: other })->Object_0;
    found(fs, 0, "sessionKey"@);
    found(fs, 1, "limit"@);
}

/// The request for a session's usage carries the session's key, so that two
/// sessions never share a request.
pub proof fn usage_request_carries_its_session(id: u64, session_key: Seq<char>, other: Seq<char>)
    ensures
        ({
            let frame = command_frame(id, GatewayCommandView::FetchSessionUsage { session_key });
            let p = frame.field("params"@);
            &&& text_in(frame.field("method"@)) == Some("sessions.usage.timeseries"@)
            &&& member(p, "key"@) == Some(JsonView::Str(session_key))
        }),
        session_key != other ==> command_frame(
            id,
            GatewayCommandView::FetchSessionUsage { session_key },
        ) != command_frame(id, GatewayCommandView::FetchSessionUsage { session_key: other }),
{
    command_frame_reads(id, GatewayCommandView::FetchSessionUsage { session_key });
    let fs = params_of(GatewayCommandView::FetchSessionUsage { session_key })->Object_0;
    found(fs, 0, "key"@);
    command_frame_reads(id, GatewayCommandView::FetchSessionUsage { session_key: other });
    let fs = params_of(GatewayCommandView::FetchSessionUsage { session_key: other })->Object_0;
    found(fs, 0, "key"@);
}

/// The request for a persona carries the agent's id, so that two agents never
/// share a request.
pub proof fn identity_request_carries_its_agent(id: u64, agent_id: Seq<char>, other: Seq<char>)
    ensures
        ({
            let frame = command_frame(id, GatewayCommandView::FetchAgentIdentity { agent_id });
            let p = frame.field("params"@);
            &&& text_in(frame.field("method"@)) == Some("agent.identity.get"@)
            &&& member(p, "agentId"@) == Some(JsonView::Str(agent_id))
        }),
        agent_id != other ==> command_frame(
            id,
            GatewayCommandView::FetchAgentIdentity { agent_id },
        ) != command_frame(id, GatewayCommandView::FetchAgentIdentity { agent_id: other }),
{
    command_frame_reads(id, GatewayCommandView::FetchAgentIdentity { agent_id });
    let fs = params_of(GatewayCommandView::FetchAgentIdentity { agent_id })->Object_0;
    found(fs, 0, "agentId"@);
    command_frame_reads(id, GatewayCommandView::FetchAgentIdentity { agent_id: other });
    let fs = params_of(GatewayCommandView::FetchAgentIdentity { agent_id: other })->Object_0;
    found(fs, 0, "agentId"@);
}

/// The request that runs a job carries the job's id and forces the run, so
/// that two jobs never share a request.
pub proof fn run_carries_its_job(id: u64, job_id: Seq<char>, other: Seq<char>)
    ensures
        ({
            let frame = command_frame(id, GatewayCommandView::RunCron { job_id });
            let p = frame.field("params"@);
            &&& text_in(frame.field("method"@)) == Some("cron.run"@)
            &&& member(p, "id"@) == Some(JsonView::Str(job_id))
            &&& member(p, "mode"@) == Some(JsonView::Str("force"@))
        }),
        job_id != other ==> command_frame(
            id,
            GatewayCommandView::RunCron { job_id },
        ) != command_frame(id, GatewayCommandView::RunCron { job_id: other }),
{
    reveal_strlit("id");
    reveal_strlit("mode");
    assert("id"@.len() == 2);
    assert("mode"@.len() == 4);
    command_frame_reads(id, GatewayCommandView::RunCron { job_id });
    let fs = params_of(GatewayCommandView::RunCron { job_id })->Object_0;
    found(fs, 0, "id"@);
    found(fs, 1, "mode"@);
    command_frame_reads(id, GatewayCommandView::RunCron { job_id: other });
    let fs = params_of(GatewayCommandView::RunCron { job_id: other })->Object_0;
    found(fs, 0, "id"@);
    found(fs, 1, "mode"@);
}

/// The request that settles an approval carries the approval's id and the
/// decision, so that neither two approvals nor two decisions share a request.
pub proof fn decision_carries_its_approval(
    id: u64,
    approval: Seq<char>,
    decision: Seq<char>,
    other: Seq<char>,
)
    ensures
        ({
            let frame = command_frame(id, GatewayCommandView::ResolveApproval { id: approval, decision });
            let p = frame.field("params"@);
            &&& text_in(frame.field("method"@)) == Some("exec.approval.resolve"@)
            &&& member(p, "id"@) == Some(JsonView::Str(approval))
            &&& member(p, "decision"@) == Some(JsonView::Str(decision))
        }),
        approval != other ==> command_frame(
            id,
            GatewayCommandView::ResolveApproval { id: approval, decision },
        ) != command_frame(id, GatewayCommandView::ResolveApproval { id: other, decision }),
        decision != other ==> command_frame(
            id,
            GatewayCommandView::ResolveApproval { id: approval, decision },
        ) != command_frame(id, GatewayCommandView::ResolveApproval { id: approval, decision: other }),
{
    reveal_strlit("id");
    reveal_strlit("decision");
    assert("id"@.len() == 2);
    assert("decision"@.len() == 8);
    command_frame_reads(id, GatewayCommandView::ResolveApproval { id: approval, decision });
    let fs = params_of(GatewayCommandView::ResolveApproval { id: approval, decision })->Object_0;
    found(fs, 0, "id"@);
    found(fs, 1, "decision"@);
    command_frame_reads(id, GatewayCommandView::ResolveApproval { id: other, decision });
    let fs = params_of(GatewayCommandView::ResolveApproval { id: other, decision })->Object_0;
    found(fs, 0, "id"@);
    found(fs, 1, "decision"@);
    command_frame_reads(id, GatewayCommandView::ResolveApproval { id: approval, decision: other });
    let fs = params_of(GatewayCommandView::ResolveApproval { id: approval, decision: other })->Object_0;
    found(fs, 0, "id"@);
    found(fs, 1, "decision"@);
}

/// The request that sends a message to an agent under a key.
pub open spec fn chat_frame(
    id: u64,
    agent_id: Seq<char>,
    message: Seq<char>,
    key: Seq<char>,
) -> JsonView {
    command_frame(id, GatewayCommandView::SendChat { agent_id, message, idempotency_key: key })
}

/// The request that sends a chat message goes to the agent's main session and
/// carries the message and the key that makes it count once.
pub proof fn chat_carries_its_message(
    id: u64,
    agent_id: Seq<char>,
    message: Seq<char>,
    key: Seq<char>,
)
    ensures
        ({
            let frame = chat_frame(id, agent_id, message, key);
            let p = frame.field("params"@);
            &&& text_in(frame.field("method"@)) == Some("chat.send"@)
            &&& text_in(member(p, "sessionKey"@)) == Some("agent:"@ + agent_id + ":main"@)
            &&& text_in(member(p, "message"@)) == Some(message)
            &&& text_in(member(p, "idempotencyKey"@)) == Some(key)
        }),
{
    reveal_strlit("sessionKey");
    reveal_strlit("message");
    reveal_strlit("idempotencyKey");
    assert("sessionKey"@.len() == 10);
    assert("message"@.len() == 7);
    assert("idempotencyKey"@.len() == 14);
    let c = GatewayCommandView::SendChat { agent_id, message, idempotency_key: key };
    command_frame_reads(id, c);
    let fs = params_of(c)->Object_0;
    found(fs, 0, "sessionKey"@);
    found(fs, 1, "message"@);
    found(fs, 2, "idempotencyKey"@);
}

/// Neither two messages nor two keys share a request.
pub proof fn messages_never_share_a_request(
    id: u64,
    agent_id: Seq<char>,
    message: Seq<char>,
    key: Seq<char>,
    other: Seq<char>,
)
    ensures
        message != other ==> chat_frame(id, agent_id, message, key) != chat_frame(
            id,
            agent_id,
            other,
            key,
        ),
        key != other ==> chat_frame(id, agent_id, message, key) != chat_frame(
            id,
            agent_id,
            message,
            other,
        ),
{
    chat_carries_its_message(id, agent_id, message, key);
    chat_carries_its_message(id, agent_id, other, key);
    chat_carries_its_message(id, agent_id, message, other);
}

/// The request for a chat history goes to the agent's main session.
pub proof fn history_request_carries_its_agent(id: u64, agent_id: Seq<char>)
    ensures
        ({
            let frame = command_frame(id, GatewayCommandView::FetchChatHistory { agent_id });
            let p = frame.field("params"@);
            &&& text_in(frame.field("method"@)) == Some("chat.history"@)
            &&& member(p, "sessionKey"@) == Some(JsonView::Str("agent:"@ + agent_id + ":main"@))
            &&& member(p, "limit"@) == Some(JsonView::Int(200))
        }),
{
    reveal_strlit("sessionKey");
    reveal_strlit("limit");
    assert("sessionKey"@.len() == 10);
    assert("limit"@.len() == 5);
    command_frame_reads(id, GatewayCommandView::FetchChatHistory { agent_id });
    let fs = params_of(GatewayCommandView::FetchChatHistory { agent_id })->Object_0;
    found(fs, 0, "sessionKey"@);
    found(fs, 1, "limit"@);
}

proof fn main_keys_differ(a: Seq<char>, b: Seq<char>)
    ensures
        a != b ==> "agent:"@ + a + ":main"@ != "agent:"@ + b + ":main"@,
{
    let x = "agent:"@ + a + ":main"@;
    let y = "agent:"@ + b + ":main"@;
    if x == y {
        assert(x.len() == y.len());
        assert(a =~= x.subrange("agent:"@.len() as int, ("agent:"@.len() + a.len()) as int));
        assert(b =~= y.subrange("agent:"@.len() as int, ("agent:"@.len() + b.len()) as int));
    }
}

/// Two agents never share a request: neither for a message nor for a history.
pub proof fn agents_never_share_a_request(
    id: u64,
    agent_id: Seq<char>,
    other: Seq<char>,
    message: Seq<char>,
    key: Seq<char>,
)
    requires
        agent_id != other,
    ensures
        chat_frame(id, agent_id, message, key) != chat_frame(id, other, message, key),
        command_frame(id, GatewayCommandView::FetchChatHistory { agent_id }) != command_frame(
            id,
            GatewayCommandView::FetchChatHistory { agent_id: other },
        ),
{
    main_keys_differ(agent_id, other);
    chat_carries_its_message(id, agent_id, message, key);
    chat_carries_its_message(id, other, message, key);
    history_request_carries_its_agent(id, agent_id);
    history_request_carries_its_agent(id, other);
}

} // verus!
