//! What the handshake makes of each frame, said of every frame.
use vstd::prelude::*;

use crate::json::{flag_in, items_in, member, text_in, JsonView};
use crate::net::events::{PairRequestKind, PairRequestView, WsEventView};
use crate::net::handshake::{
    challenge_after, challenge_in, hello_after, hello_in, origin_of, retry_after, HelloView,
    IncomingView, SessionErrorView,
};
use crate::net::laws::request_carries;
use crate::net::openclaw::Session;
use crate::seqs::filter_map_all;
use crate::text::{decimal, has_prefix, position_unique};

verus! {

/// A challenge hands over its nonce; one without a nonce is refused, and any
/// other frame is waited past.
pub proof fn challenge_hands_over_its_nonce(v: JsonView, nonce: Seq<char>)
    ensures
        ({
            let is_challenge = text_in(v.field("type"@)) == Some("event"@) && text_in(
                v.field("event"@),
            ) == Some("connect.challenge"@);
            let held = text_in(member(v.field("payload"@), "nonce"@));
            &&& is_challenge && held == Some(nonce) && nonce.len() > 0 ==> challenge_in(v) == Ok::<
                Option<Seq<char>>,
                SessionErrorView,
            >(Some(nonce))
            &&& is_challenge && (held is None || held->Some_0.len() == 0) ==> challenge_in(v)
                == Err::<Option<Seq<char>>, SessionErrorView>(
                SessionErrorView::HandshakeRejected("challenge missing nonce"@),
            )
            &&& !is_challenge ==> challenge_in(v) == Ok::<Option<Seq<char>>, SessionErrorView>(None)
        }),
{
}

/// Whether a frame answers the connect request.
pub open spec fn answers_connect(v: JsonView) -> bool {
    text_in(v.field("type"@)) == Some("res"@) && text_in(v.field("id"@)) == Some("connect-1"@)
}

/// Whether a frame welcomes the client.
pub open spec fn welcomes(v: JsonView) -> bool {
    answers_connect(v) && flag_in(v.field("ok"@)) == Some(true) && text_in(
        member(v.field("payload"@), "type"@),
    ) == Some("hello-ok"@)
}

/// A welcome gives the connection's id and the scopes that were granted, in
/// order.
pub proof fn welcome_is_accepted(
    v: JsonView,
    txt: Seq<char>,
    device_id: Option<Seq<char>>,
    a: Seq<JsonView>,
    id: Seq<char>,
)
    requires
        welcomes(v),
        items_in(member(member(v.field("payload"@), "auth"@), "scopes"@)) == Some(a),
        forall|i: int| 0 <= i < a.len() ==> (#[trigger] a[i]) is Str,
        text_in(member(member(v.field("payload"@), "server"@), "connId"@)) == Some(id),
    ensures
        ({
            let r = hello_in(v, txt, device_id);
            let scopes = r->Ok_0->Accepted_scopes;
            &&& r is Ok
            &&& r->Ok_0 is Accepted
            &&& r->Ok_0->Accepted_conn_id == id
            &&& scopes.len() == a.len()
            &&& forall|i: int| 0 <= i < a.len() ==> #[trigger] a[i] == JsonView::Str(scopes[i])
        }),
{
    let f = |x: JsonView| x.as_text();
    assert forall|i: int| 0 <= i < a.len() implies (#[trigger] f(a[i])) is Some by {
        assert(a[i] is Str);
    }
    filter_map_all(a, f);
    assert forall|i: int| 0 <= i < a.len() implies #[trigger] a[i] == JsonView::Str(
        a.filter_map(f)[i],
    ) by {
        assert(f(a[i]) is Some);
    }
}

/// A refusal that asks for pairing says so, with its request, the device, the
/// hint and what kind of pairing is asked for. Any other refusal is passed on
/// as it came, and a frame that answers something else is waited past.
pub proof fn refusal_says_why(v: JsonView, txt: Seq<char>, device_id: Option<Seq<char>>)
    requires
        !welcomes(v),
    ensures
        ({
            let details = member(v.field("error"@), "details"@);
            let reason = text_in(member(details, "reason"@));
            let request = text_in(member(details, "requestId"@));
            let r = hello_in(v, txt, device_id);
            let pairs = text_in(member(details, "code"@)) == Some("PAIRING_REQUIRED"@) && request
                is Some && (reason == Some("scope-upgrade"@) || reason == Some("not-paired"@));
            &&& !answers_connect(v) ==> r == Ok::<HelloView, SessionErrorView>(HelloView::Wait)
            &&& answers_connect(v) && !pairs ==> r == Err::<HelloView, SessionErrorView>(
                SessionErrorView::HandshakeRejected(txt),
            )
            &&& answers_connect(v) && pairs ==> r == Err::<HelloView, SessionErrorView>(
                SessionErrorView::PairingRequired(
                    PairRequestView {
                        request_id: request->Some_0,
                        device_id,
                        remediation_hint: text_in(member(details, "remediationHint"@)),
                        kind: if reason == Some("scope-upgrade"@) {
                            PairRequestKind::ScopeUpgrade
                        } else {
                            PairRequestKind::FirstPair
                        },
                    },
                ),
            )
        }),
{
}

/// A socket that closes during the handshake ends it with the reason that it
/// gave, and one that fails with what failed.
pub proof fn lost_socket_ends_the_handshake(why: Seq<char>, device_id: Option<Seq<char>>)
    ensures
        challenge_after(IncomingView::Closed(Some(why))) == Err::<
            Option<Seq<char>>,
            SessionErrorView,
        >(SessionErrorView::HandshakeRejected(why)),
        hello_after(IncomingView::Closed(Some(why)), device_id) == Err::<
            HelloView,
            SessionErrorView,
        >(SessionErrorView::HandshakeRejected(why)),
        challenge_after(IncomingView::Failed(why)) == Err::<Option<Seq<char>>, SessionErrorView>(
            SessionErrorView::Connect(why),
        ),
        hello_after(IncomingView::Failed(why), device_id) == Err::<HelloView, SessionErrorView>(
            SessionErrorView::Connect(why),
        ),
        challenge_after(IncomingView::Ended) == Err::<Option<Seq<char>>, SessionErrorView>(
            SessionErrorView::SocketClosed,
        ),
        hello_after(IncomingView::Ended, device_id) == Err::<HelloView, SessionErrorView>(
            SessionErrorView::SocketClosed,
        ),
{
}

/// What the UI is told of a failed attempt names the failure; a pairing that
/// is asked for is shown and waited for longer than anything else, and does
/// not lengthen later waits. After a session that was up the wait starts over.
pub proof fn retries_fit_the_failure(
    e: SessionErrorView,
    p: PairRequestView,
    why: Seq<char>,
    backoff_ms: u64,
)
    requires
        backoff_ms <= 30_000,
    ensures
        ({
            let r = retry_after(Some(SessionErrorView::PairingRequired(p)), backoff_ms);
            &&& r.events.len() == 2
            &&& r.events[0] == WsEventView::PairRequestPending(Some(p))
            &&& p.kind == PairRequestKind::FirstPair ==> r.events[1] == WsEventView::Disconnected(
                "awaiting pairing approval ("@ + p.request_id + ")"@,
            )
            &&& p.kind == PairRequestKind::ScopeUpgrade ==> r.events[1]
                == WsEventView::Disconnected(
                "awaiting scope-upgrade approval ("@ + p.request_id + ")"@,
            )
            &&& r.wait_ms == 300_000
            &&& r.backoff_ms == backoff_ms
        }),
        !(e is PairingRequired) ==> {
            let r = retry_after(Some(e), backoff_ms);
            &&& r.events.len() == 1
            &&& r.wait_ms == backoff_ms
            &&& 2 * backoff_ms <= 30_000 ==> r.backoff_ms == 2 * backoff_ms
            &&& 2 * backoff_ms > 30_000 ==> r.backoff_ms == 30_000
        },
        retry_after(None, backoff_ms).events.len() == 0,
        retry_after(None, backoff_ms).wait_ms == 500,
        retry_after(None, backoff_ms).backoff_ms == 1_000,
        retry_after(Some(SessionErrorView::Connect(why)), backoff_ms).events == seq![
            WsEventView::Disconnected("connect "@ + why),
        ],
        retry_after(Some(SessionErrorView::HandshakeRejected(why)), backoff_ms).events == seq![
            WsEventView::Disconnected("handshake rejected: "@ + why),
        ],
        retry_after(Some(SessionErrorView::Json(why)), backoff_ms).events == seq![
            WsEventView::Disconnected("json: "@ + why),
        ],
        retry_after(Some(SessionErrorView::Send(why)), backoff_ms).events == seq![
            WsEventView::Disconnected("send: "@ + why),
        ],
        retry_after(Some(SessionErrorView::SocketClosed), backoff_ms).events == seq![
            WsEventView::Disconnected("socket closed"@),
        ],
        retry_after(Some(SessionErrorView::HandshakeTimeout), backoff_ms).events == seq![
            WsEventView::Disconnected("handshake timeout"@),
        ],
{
}

/// The origin of a gateway is its host and port under the scheme that belongs
/// to its own, whatever path follows; there is none for another scheme or
/// without a host.
pub proof fn origin_is_the_host(host: Seq<char>, path: Seq<char>, url: Seq<char>)
    requires
        host.len() > 0,
        forall|i: int| 0 <= i < host.len() ==> host[i] != '/',
        path.len() > 0 ==> path[0] == '/',
    ensures
        origin_of("ws://"@ + host + path) == Some("http://"@ + host),
        origin_of("wss://"@ + host + path) == Some("https://"@ + host),
        !has_prefix(url, "ws://"@) && !has_prefix(url, "wss://"@) ==> origin_of(url) is None,
        origin_of("ws://"@ + path) is None,
        origin_of("wss://"@ + path) is None,
{
    reveal_strlit("ws://");
    reveal_strlit("wss://");
    reveal_strlit("http");
    reveal_strlit("https");
    reveal_strlit("://");
    reveal_strlit("http://");
    reveal_strlit("https://");
    let rest = host + path;
    let n = host.len() as int;
    position_unique(rest, '/', n);
    assert(rest.take(n) =~= host);
    position_unique(path, '/', 0);
    let plain = "ws://"@ + host + path;
    let secure = "wss://"@ + host + path;
    assert(plain.skip(5) =~= rest);
    assert(secure.skip(6) =~= rest);
    assert(plain.take(5) =~= "ws://"@);
    assert(secure.take(6) =~= "wss://"@);
    assert(plain[2] == ':');
    assert(plain.take(6)[2] == ':');
    assert("http"@ + "://"@ + host =~= "http://"@ + host);
    assert("https"@ + "://"@ + host =~= "https://"@ + host);
    let bare = "ws://"@ + path;
    let safe = "wss://"@ + path;
    assert(bare.skip(5) =~= path);
    assert(safe.skip(6) =~= path);
    assert(bare.take(5) =~= "ws://"@);
    assert(safe.take(6) =~= "wss://"@);
    assert(bare.len() >= 6 ==> bare.take(6)[2] == ':');
}

/// Once accepted, the client asks for the jobs, the channels, the session
/// events, the sessions and the agents, each under a number of its own.
pub proof fn snapshots_are_asked_for(first: u64)
    requires
        first <= u64::MAX - 5,
    ensures
        ({
            let fs = Session::bootstrap_frames(first);
            &&& fs.len() == 5
            &&& text_in(fs[0].field("method"@)) == Some("cron.list"@)
            &&& text_in(fs[1].field("method"@)) == Some("channels.status"@)
            &&& text_in(fs[2].field("method"@)) == Some("sessions.subscribe"@)
            &&& text_in(fs[3].field("method"@)) == Some("sessions.list"@)
            &&& text_in(fs[4].field("method"@)) == Some("agents.list"@)
            &&& forall|i: int|
                0 <= i < 5 ==> text_in((#[trigger] fs[i]).field("id"@)) == Some(
                    decimal((first + i) as nat),
                ) && text_in(fs[i].field("type"@)) == Some("req"@)
        }),
{
    let none = JsonView::Object(Seq::empty());
    request_carries(decimal(first as nat), "cron.list"@, none);
    request_carries(decimal((first + 1) as nat), "channels.status"@, none);
    request_carries(decimal((first + 2) as nat), "sessions.subscribe"@, none);
    request_carries(decimal((first + 3) as nat), "sessions.list"@, none);
    request_carries(decimal((first + 4) as nat), "agents.list"@, none);
}

/// The heartbeat asks for the channels, and the log is asked for from the
/// cursor on, once there is one, each under its number.
pub proof fn timers_ask_anew(id: u64, cursor: i64)
    ensures
        ({
            let beat = Session::heartbeat_frame(id);
            let tail = Session::tail_frame(id, Some(cursor));
            let first = Session::tail_frame(id, None);
            &&& text_in(beat.field("method"@)) == Some("channels.status"@)
            &&& text_in(beat.field("id"@)) == Some(decimal(id as nat))
            &&& text_in(tail.field("method"@)) == Some("logs.tail"@)
            &&& text_in(tail.field("id"@)) == Some(decimal(id as nat))
            &&& member(tail.field("params"@), "cursor"@) == Some(JsonView::Int(cursor))
            &&& text_in(first.field("method"@)) == Some("logs.tail"@)
            &&& member(first.field("params"@), "cursor"@) is None
        }),
{
    let none = JsonView::Object(Seq::empty());
    request_carries(decimal(id as nat), "channels.status"@, none);
    request_carries(decimal(id as nat), "logs.tail"@, Session::tail_params(Some(cursor)));
    request_carries(decimal(id as nat), "logs.tail"@, Session::tail_params(None));
    crate::keyed::key_index_unique(seq![("cursor"@, JsonView::Int(cursor))], "cursor"@, 0);
    crate::keyed::key_index_bounds(Seq::<(Seq<char>, JsonView)>::empty(), "cursor"@);
}

} // verus!
