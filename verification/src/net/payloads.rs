//! Recognising gateway payloads by their shape.
use vstd::prelude::*;

use crate::json::{
    array_in, bool_in, flag_in, items_in, member, str_in, str_is, text_in, Json, JsonField,
    JsonView,
};
use crate::keyed::lookup;
use crate::net::rpc::{
    agents_list_response, channel_list, cron_job_list, decode_channels, decode_cron_jobs,
    log_tail_payload, main_agent, session_info, session_usage_timeseries, AgentsListResponse,
    AgentsListResponseView, Channel, ChannelView, CronJob, CronJobView, LogTailPayload,
    LogTailPayloadView, MainAgent, MainAgentView, SessionInfo, SessionInfoView,
    SessionUsageTimeseries, SessionUsageTimeseriesView,
};
use crate::seqs::{filter_map_step, push_to};
use crate::text::{
    cat3, chars_of, contains, ends_with, has_prefix, has_suffix, joined, lowered, occurs, position,
    position_unique, same, same_ignoring_case, starts_with, strip_prefix, text_of, to_upper, trim,
    trimmed, uppered,
};
use crate::ui::chat_view::{ChatMessage, ChatMessageView, ChatRole};

verus! {

// ---------------------------------------------------------------------
// Session keys and silent replies
// ---------------------------------------------------------------------

/// The key of an agent's main chat session.
pub open spec fn main_session_key(agent_id: Seq<char>) -> Seq<char> {
    "agent:"@ + agent_id + ":main"@
}

/// Builds the key of an agent's main chat session. The full form works for
/// every agent, the default one included.
pub fn agent_main_session_key(agent_id: &str) -> (r: String)
    ensures
        r@ == main_session_key(agent_id@),
{
    cat3("agent:", agent_id, ":main")
}

/// The agent id in a key of the form `agent:<id>:<session>`.
pub open spec fn agent_in_key(key: Seq<char>) -> Option<Seq<char>> {
    if has_prefix(key, "agent:"@) {
        let rest = key.skip("agent:"@.len() as int);
        let end = position(rest, ':');
        if 0 < end < rest.len() {
            Some(rest.take(end))
        } else {
            None
        }
    } else {
        None
    }
}

/// Extracts the agent id from a session key; `None` for keys of another form.
pub fn agent_id_from_session_key(key: &str) -> (r: Option<String>)
    ensures
        r.deep_view() == agent_in_key(key@),
{
    match strip_prefix(key, "agent:") {
        Some(rest) => {
            let chars = chars_of(rest.as_str());
            let mut end: usize = 0;
            while end < chars.len() && chars[end] != ':'
                invariant
                    end <= chars@.len(),
                    forall|k: int| 0 <= k < end ==> chars@[k] != ':',
                decreases chars@.len() - end,
            {
                end = end + 1;
            }
            proof {
                position_unique(chars@, ':', end as int);
            }
            if end == 0 || end >= chars.len() {
                None
            } else {
                let id = text_of(&chars, 0, end);
                assert(id@ =~= chars@.take(end as int));
                Some(id)
            }
        },
        None => None,
    }
}

/// The agent of a key: the one it names, else `main`.
pub open spec fn agent_for_key(key: Seq<char>) -> Seq<char> {
    match agent_in_key(key) {
        Some(id) => id,
        None => "main"@,
    }
}

/// The agent that a session key routes to.
pub fn route_agent(key: &str) -> (r: String)
    ensures
        r@ == agent_for_key(key@),
{
    match agent_id_from_session_key(key) {
        Some(id) => id,
        None => "main".to_owned(),
    }
}

/// A reply in an agent's main session routes back to the agent, whatever its
/// id, as long as the id is not empty and holds no colon.
pub proof fn main_session_routes_back(agent_id: Seq<char>)
    requires
        agent_id.len() > 0,
        forall|i: int| 0 <= i < agent_id.len() ==> agent_id[i] != ':',
    ensures
        agent_in_key(main_session_key(agent_id)) == Some(agent_id),
{
    reveal_strlit("agent:");
    reveal_strlit(":main");
    let key = main_session_key(agent_id);
    assert(key.take("agent:"@.len() as int) =~= "agent:"@);
    let rest = key.skip("agent:"@.len() as int);
    assert(rest =~= agent_id + ":main"@);
    assert(rest[agent_id.len() as int] == ':');
    position_unique(rest, ':', agent_id.len() as int);
    assert(rest.take(agent_id.len() as int) =~= agent_id);
}

/// Whether `t` is the sentinel `token`, in any case, or an envelope with an
/// `"action"` that holds it.
pub open spec fn is_sentinel(t: Seq<char>, token: Seq<char>) -> bool {
    ||| lowered(t) == lowered(token)
    ||| has_prefix(t, "{"@) && has_suffix(t, "}"@) && occurs(uppered(t), token) && occurs(
        t,
        "\"action\""@,
    )
}

/// Whether `text` tells that the agent chose to stay quiet.
pub open spec fn is_silent(text: Seq<char>) -> bool {
    let t = trimmed(text);
    t.len() > 0 && (is_sentinel(t, "NO_REPLY"@) || is_sentinel(t, "HEARTBEAT_OK"@))
}

fn sentinel(t: &str, token: &str) -> (r: bool)
    ensures
        r == is_sentinel(t@, token@),
{
    if same_ignoring_case(t, token) {
        return true;
    }
    let up = to_upper(t);
    starts_with(t, "{") && ends_with(t, "}") && contains(up.as_str(), token) && contains(
        t,
        "\"action\"",
    )
}

/// Is this assistant text one of the silent-reply sentinels (`NO_REPLY`,
/// `HEARTBEAT_OK`)? Case-insensitive, tolerant of surrounding white space and
/// of the `{"action":"NO_REPLY"}` envelope form.
pub fn is_silent_reply(text: &str) -> (r: bool)
    ensures
        r == is_silent(text@),
{
    let t = trim(text);
    if t.as_str().is_empty() {
        return false;
    }
    sentinel(t.as_str(), "NO_REPLY") || sentinel(t.as_str(), "HEARTBEAT_OK")
}

/// White space around a text does not change whether it is silent.
pub proof fn silence_ignores_padding(text: Seq<char>)
    ensures
        is_silent(trimmed(text)) == is_silent(text),
{
    crate::text::trimmed_twice(text);
}

// ---------------------------------------------------------------------
// Message text
// ---------------------------------------------------------------------

/// The text of a content chunk of type `text`.
pub open spec fn chunk_text(chunk: JsonView) -> Option<Seq<char>> {
    if text_in(chunk.field("type"@)) == Some("text"@) {
        text_in(chunk.field("text"@))
    } else {
        None
    }
}

/// The text chunks of a content array, put together.
pub open spec fn chunks_text(chunks: Seq<JsonView>) -> Seq<char> {
    joined(chunks.filter_map(|c: JsonView| chunk_text(c)), ""@)
}

fn join_chunks(chunks: &Vec<Json>) -> (r: String)
    ensures
        r@ == chunks_text(chunks.deep_view()),
{
    let ghost f = |c: JsonView| chunk_text(c);
    let ghost all = chunks.deep_view();
    let mut parts: Vec<String> = Vec::new();
    let mut i: usize = 0;
    assert(parts.deep_view() =~= all.take(0).filter_map(f));
    while i < chunks.len()
        invariant
            i <= chunks@.len(),
            all == chunks.deep_view(),
            f == (|c: JsonView| chunk_text(c)),
            parts.deep_view() == all.take(i as int).filter_map(f),
        decreases chunks@.len() - i,
    {
        assert(all[i as int] == chunks@[i as int].deep_view());
        proof {
            filter_map_step(all, i as int, f);
        }
        if str_is(chunks[i].get("type"), "text") {
            if let Some(t) = str_in(chunks[i].get("text")) {
                push_to(&mut parts, t.clone());
            }
        }
        i = i + 1;
    }
    assert(all.take(i as int) =~= all);
    crate::text::join(&parts, "")
}

/// The text of a `session.message` payload.
pub open spec fn payload_text(payload: JsonView) -> Seq<char> {
    match items_in(member(payload.field("message"@), "content"@)) {
        Some(chunks) => chunks_text(chunks),
        None => Seq::empty(),
    }
}

/// Pulls the text out of a `session.message` payload: its text chunks put
/// together, the rest dropped.
pub fn extract_message_text(payload: &Json) -> (r: String)
    ensures
        r@ == payload_text(payload.deep_view()),
{
    match array_in(crate::json::get_in(payload.get("message"), "content")) {
        Some(chunks) => join_chunks(chunks),
        None => String::new(),
    }
}

/// The text of a history entry: its `content` as a string or as an array of
/// chunks, else its `text`.
pub open spec fn entry_text(m: JsonView) -> Option<Seq<char>> {
    match m.field("content"@) {
        Some(JsonView::Str(s)) => Some(s),
        Some(JsonView::Array(a)) => Some(chunks_text(a)),
        _ => text_in(m.field("text"@)),
    }
}

/// Pulls the text out of a history entry.
pub fn flatten_message_content(message: &Json) -> (r: Option<String>)
    ensures
        r.deep_view() == entry_text(message.deep_view()),
{
    match message.get("content") {
        Some(Json::Str(s)) => Some(s.clone()),
        Some(Json::Array(a)) => {
            proof {
                crate::json::array_tree(*a);
            }
            Some(join_chunks(a))
        },
        _ => match str_in(message.get("text")) {
            Some(s) => Some(s.clone()),
            None => None,
        },
    }
}

// ---------------------------------------------------------------------
// Responses
// ---------------------------------------------------------------------

/// Whether some job has no name.
pub open spec fn has_nameless_cron(l: Seq<CronJobView>) -> bool {
    exists|i: int| 0 <= i < l.len() && (#[trigger] l[i]).name.len() == 0
}

/// Whether some channel has no name.
pub open spec fn has_nameless_channel(l: Seq<ChannelView>) -> bool {
    exists|i: int| 0 <= i < l.len() && (#[trigger] l[i]).name.len() == 0
}

/// Whether some entry has a role.
pub open spec fn has_role(a: Seq<JsonView>) -> bool {
    exists|i: int| 0 <= i < a.len() && text_in((#[trigger] a[i]).field("role"@)) is Some
}

/// The cron jobs of a response: under `jobs`, or the value itself, if it is a
/// list of jobs that all have a name.
pub open spec fn cron_list_in(v: JsonView) -> Option<Seq<CronJobView>> {
    let candidate = match v.field("jobs"@) {
        Some(j) => j,
        None => v,
    };
    match cron_job_list(candidate) {
        Some(l) => if has_nameless_cron(l) {
            None
        } else {
            Some(l)
        },
        None => None,
    }
}

pub fn try_cron_list(v: &Json) -> (r: Option<Vec<CronJob>>)
    ensures
        r.deep_view() == cron_list_in(v.deep_view()),
{
    let candidate = match v.get("jobs") {
        Some(j) => j,
        None => v,
    };
    match decode_cron_jobs(candidate) {
        Some(list) => {
            let ghost l = list.deep_view();
            let mut i: usize = 0;
            while i < list.len()
                invariant
                    i <= list@.len(),
                    l == list.deep_view(),
                    cron_list_in(v.deep_view()) == (if has_nameless_cron(l) {
                        None
                    } else {
                        Some(l)
                    }),
                    forall|k: int| 0 <= k < i ==> (#[trigger] l[k]).name.len() != 0,
                decreases list@.len() - i,
            {
                assert(l[i as int] == list@[i as int].deep_view());
                if list[i].name.as_str().is_empty() {
                    assert(l[i as int].name.len() == 0);
                    return None;
                }
                i = i + 1;
            }
            Some(list)
        },
        None => None,
    }
}

/// A channel out of one entry of `channels.status`: enabled when configured,
/// connected when it runs without an error.
pub open spec fn channel_entry(name: Seq<char>, e: JsonView) -> ChannelView {
    let last_error = text_in(e.field("lastError"@));
    ChannelView {
        name,
        enabled: flag_in(e.field("configured"@)) == Some(true),
        connected: flag_in(e.field("running"@)) == Some(true) && last_error is None,
        last_error,
    }
}

/// The entry of a channel by name.
pub open spec fn named_channel(
    fs: Seq<(Seq<char>, JsonView)>,
    name: Seq<char>,
) -> Option<ChannelView> {
    match lookup(fs, name) {
        Some(e) => Some(channel_entry(name, e)),
        None => None,
    }
}

/// The order in which a map of channels is listed: by `channelOrder`, else in
/// the map's own order.
pub open spec fn channel_order(v: JsonView, fs: Seq<(Seq<char>, JsonView)>) -> Seq<Seq<char>> {
    match items_in(v.field("channelOrder"@)) {
        Some(a) => a.filter_map(|x: JsonView| x.as_text()),
        None => Seq::new(fs.len(), |i: int| fs[i].0),
    }
}

/// The channels of a response: a list under `channels` of channels that all
/// have a name, or a map from names to entries that is not empty.
pub open spec fn channel_list_in(v: JsonView) -> Option<Seq<ChannelView>> {
    match v.field("channels"@) {
        Some(JsonView::Array(a)) => match channel_list(JsonView::Array(a)) {
            Some(l) => if has_nameless_channel(l) {
                None
            } else {
                Some(l)
            },
            None => None,
        },
        Some(JsonView::Object(fs)) => {
            let l = channel_order(v, fs).filter_map(|n: Seq<char>| named_channel(fs, n));
            if l.len() == 0 {
                None
            } else {
                Some(l)
            }
        },
        _ => None,
    }
}

fn channel_names(v: &Json, fs: &Vec<JsonField>) -> (r: Vec<String>)
    ensures
        r.deep_view() == channel_order(v.deep_view(), fs.deep_view()),
{
    let mut out: Vec<String> = Vec::new();
    match array_in(v.get("channelOrder")) {
        Some(a) => {
            let ghost f = |x: JsonView| x.as_text();
            let ghost all = a.deep_view();
            let mut i: usize = 0;
            assert(out.deep_view() =~= all.take(0).filter_map(f));
            while i < a.len()
                invariant
                    i <= a@.len(),
                    all == a.deep_view(),
                    f == (|x: JsonView| x.as_text()),
                    out.deep_view() == all.take(i as int).filter_map(f),
                decreases a@.len() - i,
            {
                assert(all[i as int] == a@[i as int].deep_view());
                proof {
                    filter_map_step(all, i as int, f);
                }
                if let Some(t) = a[i].as_str() {
                    push_to(&mut out, t.clone());
                }
                i = i + 1;
            }
            assert(all.take(i as int) =~= all);
        },
        None => {
            let mut i: usize = 0;
            while i < fs.len()
                invariant
                    i <= fs@.len(),
                    out@.len() == i,
                    forall|k: int| 0 <= k < i ==> out@[k]@ == fs@[k].key@,
                decreases fs@.len() - i,
            {
                out.push(fs[i].key.clone());
                i = i + 1;
            }
            assert(out.deep_view() =~= Seq::new(
                fs.deep_view().len(),
                |i: int| fs.deep_view()[i].0,
            ));
        },
    }
    out
}

fn channels_of_map(v: &Json, map: &Json, fs: &Vec<JsonField>) -> (r: Option<Vec<Channel>>)
    requires
        map.deep_view() == JsonView::Object(fs.deep_view()),
        v.deep_view().field("channels"@) == Some(map.deep_view()),
    ensures
        r.deep_view() == channel_list_in(v.deep_view()),
{
    let order = channel_names(v, fs);
    let ghost members = fs.deep_view();
    let ghost f = |n: Seq<char>| named_channel(members, n);
    let ghost all = order.deep_view();
    let mut out: Vec<Channel> = Vec::new();
    let mut i: usize = 0;
    assert(out.deep_view() =~= all.take(0).filter_map(f));
    while i < order.len()
        invariant
            i <= order@.len(),
            all == order.deep_view(),
            members == fs.deep_view(),
            map.deep_view() == JsonView::Object(members),
            f == (|n: Seq<char>| named_channel(members, n)),
            out.deep_view() == all.take(i as int).filter_map(f),
        decreases order@.len() - i,
    {
        assert(all[i as int] == order@[i as int]@);
        proof {
            filter_map_step(all, i as int, f);
        }
        if let Some(entry) = map.get(order[i].as_str()) {
            let last_error = match str_in(entry.get("lastError")) {
                Some(s) => Some(s.clone()),
                None => None,
            };
            let enabled = match bool_in(entry.get("configured")) {
                Some(b) => b,
                None => false,
            };
            let running = match bool_in(entry.get("running")) {
                Some(b) => b,
                None => false,
            };
            let connected = running && last_error.is_none();
            push_to(&mut out, Channel { name: order[i].clone(), enabled, connected, last_error });
        }
        i = i + 1;
    }
    assert(all.take(i as int) =~= all);
    if out.len() == 0 {
        None
    } else {
        Some(out)
    }
}

pub fn try_channel_list(v: &Json) -> (r: Option<Vec<Channel>>)
    ensures
        r.deep_view() == channel_list_in(v.deep_view()),
{
    match v.get("channels") {
        Some(candidate) => match candidate {
            Json::Array(a) => {
                proof {
                    crate::json::array_tree(*a);
                }
                match decode_channels(candidate) {
                    Some(list) => {
                        let ghost l = list.deep_view();
                        let mut i: usize = 0;
                        while i < list.len()
                            invariant
                                i <= list@.len(),
                                l == list.deep_view(),
                                channel_list_in(v.deep_view()) == (if has_nameless_channel(
                                    l,
                                ) {
                                    None
                                } else {
                                    Some(l)
                                }),
                                forall|k: int| 0 <= k < i ==> (#[trigger] l[k]).name.len() != 0,
                            decreases list@.len() - i,
                        {
                            assert(l[i as int] == list@[i as int].deep_view());
                            if list[i].name.as_str().is_empty() {
                                assert(l[i as int].name.len() == 0);
                                return None;
                            }
                            i = i + 1;
                        }
                        Some(list)
                    },
                    None => None,
                }
            },
            Json::Object(fs) => {
                proof {
                    crate::json::object_tree(*fs);
                }
                channels_of_map(v, candidate, fs)
            },
            _ => None,
        },
        None => None,
    }
}

/// The log slice of a response that has a number under `cursor` and an array
/// under `lines`.
pub open spec fn log_tail_in(v: JsonView) -> Option<LogTailPayloadView> {
    if (v.field("cursor"@) matches Some(c) && c.is_number()) && (v.field("lines"@) matches Some(l)
        && l is Array) {
        log_tail_payload(v)
    } else {
        None
    }
}

pub fn try_log_tail(v: &Json) -> (r: Option<LogTailPayload>)
    ensures
        r.deep_view() == log_tail_in(v.deep_view()),
{
    let numeric = match v.get("cursor") {
        Some(c) => c.is_number(),
        None => false,
    };
    let listed = match v.get("lines") {
        Some(l) => l.is_array(),
        None => false,
    };
    if numeric && listed {
        LogTailPayload::decode(v)
    } else {
        None
    }
}

/// A string that is there and not empty.
pub open spec fn nonempty_text(o: Option<JsonView>) -> Option<Seq<char>> {
    match text_in(o) {
        Some(s) => if s.len() == 0 {
            None
        } else {
            Some(s)
        },
        None => None,
    }
}

fn get_nonempty(o: Option<&Json>) -> (r: Option<String>)
    ensures
        r.deep_view() == nonempty_text(o.deep_view()),
{
    match str_in(o) {
        Some(s) => if s.as_str().is_empty() {
            None
        } else {
            Some(s.clone())
        },
        None => None,
    }
}

/// The persona of a response that has an `agentId`: the id, name and emoji.
pub open spec fn identity_in(v: JsonView) -> Option<
    (Seq<char>, Option<Seq<char>>, Option<Seq<char>>),
> {
    match nonempty_text(v.field("agentId"@)) {
        Some(id) => Some(
            (id, nonempty_text(v.field("name"@)), nonempty_text(v.field("emoji"@))),
        ),
        None => None,
    }
}

pub fn try_agent_identity(v: &Json) -> (r: Option<(String, Option<String>, Option<String>)>)
    ensures
        r.deep_view() == identity_in(v.deep_view()),
{
    match get_nonempty(v.get("agentId")) {
        Some(id) => Some((id, get_nonempty(v.get("name")), get_nonempty(v.get("emoji")))),
        None => None,
    }
}

/// The agents of a response with a `defaultId` and an array under `agents`.
pub open spec fn agents_list_in(v: JsonView) -> Option<AgentsListResponseView> {
    if v.field("defaultId"@) is Some && (v.field("agents"@) matches Some(a) && a is Array) {
        agents_list_response(v)
    } else {
        None
    }
}

pub fn try_agents_list(v: &Json) -> (r: Option<AgentsListResponse>)
    ensures
        r.deep_view() == agents_list_in(v.deep_view()),
{
    let listed = match v.get("agents") {
        Some(a) => a.is_array(),
        None => false,
    };
    if v.get("defaultId").is_some() && listed {
        AgentsListResponse::decode(v)
    } else {
        None
    }
}

/// The role that a role string stands for.
pub open spec fn role_named(s: Seq<char>) -> ChatRole {
    if s == "user"@ {
        ChatRole::User
    } else if s == "assistant"@ {
        ChatRole::Assistant
    } else {
        ChatRole::Other
    }
}

/// The log entry that a history entry becomes; none when it has no role or no
/// text, or stands for silence.
pub open spec fn history_entry(m: JsonView, at: i64) -> Option<ChatMessageView> {
    match (text_in(m.field("role"@)), entry_text(m)) {
        (Some(role), Some(text)) => if trimmed(text).len() == 0 || is_silent(text) {
            None
        } else {
            Some(ChatMessageView { role: role_named(role), text, at })
        },
        _ => None,
    }
}

/// The chat history of a response whose `messages` has an entry with a role.
pub open spec fn chat_history_in(v: JsonView, at: i64) -> Option<Seq<ChatMessageView>> {
    match items_in(v.field("messages"@)) {
        Some(a) => if has_role(a) {
            Some(a.filter_map(|m: JsonView| history_entry(m, at)))
        } else {
            None
        },
        None => None,
    }
}

fn read_history_entry(m: &Json, at: i64) -> (r: Option<ChatMessage>)
    ensures
        r.deep_view() == history_entry(m.deep_view(), at),
{
    let role = match str_in(m.get("role")) {
        Some(s) => {
            if same(s.as_str(), "user") {
                ChatRole::User
            } else if same(s.as_str(), "assistant") {
                ChatRole::Assistant
            } else {
                ChatRole::Other
            }
        },
        None => {
            return None;
        },
    };
    match flatten_message_content(m) {
        Some(text) => {
            let bare = trim(text.as_str());
            if bare.as_str().is_empty() || is_silent_reply(text.as_str()) {
                None
            } else {
                Some(ChatMessage { role, text, at })
            }
        },
        None => None,
    }
}

/// Reads a chat history. Its entries are stamped with the time `at`.
pub fn try_chat_history(v: &Json, at: i64) -> (r: Option<Vec<ChatMessage>>)
    ensures
        r.deep_view() == chat_history_in(v.deep_view(), at),
{
    let arr = match array_in(v.get("messages")) {
        Some(a) => a,
        None => {
            return None;
        },
    };
    let ghost f = |m: JsonView| history_entry(m, at);
    let ghost all = arr.deep_view();
    let mut any_role = false;
    let mut out: Vec<ChatMessage> = Vec::new();
    let mut i: usize = 0;
    assert(out.deep_view() =~= all.take(0).filter_map(f));
    while i < arr.len()
        invariant
            i <= arr@.len(),
            all == arr.deep_view(),
            f == (|m: JsonView| history_entry(m, at)),
            out.deep_view() == all.take(i as int).filter_map(f),
            any_role ==> has_role(all),
            !any_role ==> forall|k: int|
                0 <= k < i ==> text_in((#[trigger] all[k]).field("role"@)) is None,
        decreases arr@.len() - i,
    {
        assert(all[i as int] == arr@[i as int].deep_view());
        proof {
            filter_map_step(all, i as int, f);
        }
        if str_in(arr[i].get("role")).is_some() {
            any_role = true;
            assert(text_in(all[i as int].field("role"@)) is Some);
        }
        if let Some(m) = read_history_entry(&arr[i], at) {
            push_to(&mut out, m);
        }
        i = i + 1;
    }
    assert(all.take(i as int) =~= all);
    if any_role {
        Some(out)
    } else {
        None
    }
}

/// The usage series of a response with `points`.
pub open spec fn usage_in(v: JsonView) -> Option<SessionUsageTimeseriesView> {
    if v.field("points"@) is Some {
        session_usage_timeseries(v)
    } else {
        None
    }
}

pub fn try_session_usage_timeseries(v: &Json) -> (r: Option<SessionUsageTimeseries>)
    ensures
        r.deep_view() == usage_in(v.deep_view()),
{
    if v.get("points").is_some() {
        SessionUsageTimeseries::decode(v)
    } else {
        None
    }
}

/// The sessions of a response: the readable entries of `sessions`, if any.
pub open spec fn session_list_in(v: JsonView) -> Option<Seq<SessionInfoView>> {
    match items_in(v.field("sessions"@)) {
        Some(a) => {
            let l = a.filter_map(|x: JsonView| session_info(x));
            if l.len() == 0 {
                None
            } else {
                Some(l)
            }
        },
        None => None,
    }
}

pub fn try_session_list(v: &Json) -> (r: Option<Vec<SessionInfo>>)
    ensures
        r.deep_view() == session_list_in(v.deep_view()),
{
    let arr = match array_in(v.get("sessions")) {
        Some(a) => a,
        None => {
            return None;
        },
    };
    let ghost f = |x: JsonView| session_info(x);
    let ghost all = arr.deep_view();
    let mut out: Vec<SessionInfo> = Vec::new();
    let mut i: usize = 0;
    assert(out.deep_view() =~= all.take(0).filter_map(f));
    while i < arr.len()
        invariant
            i <= arr@.len(),
            all == arr.deep_view(),
            f == (|x: JsonView| session_info(x)),
            out.deep_view() == all.take(i as int).filter_map(f),
        decreases arr@.len() - i,
    {
        assert(all[i as int] == arr@[i as int].deep_view());
        proof {
            filter_map_step(all, i as int, f);
        }
        if let Some(s) = SessionInfo::decode(&arr[i]) {
            push_to(&mut out, s);
        }
        i = i + 1;
    }
    assert(all.take(i as int) =~= all);
    if out.len() == 0 {
        None
    } else {
        Some(out)
    }
}

/// The first entry of a list that reads as the agent `main`.
pub open spec fn first_main(a: Seq<JsonView>) -> Option<MainAgentView>
    decreases a.len(),
{
    if a.len() == 0 {
        None
    } else {
        match main_agent(a[0]) {
            Some(m) => if m.id == "main"@ {
                Some(m)
            } else {
                first_main(a.drop_first())
            },
            None => first_main(a.drop_first()),
        }
    }
}

/// The main agent of a response: `main` out of `agents`, else the value
/// itself.
pub open spec fn main_agent_in(v: JsonView) -> Option<MainAgentView> {
    let listed = match items_in(v.field("agents"@)) {
        Some(a) => first_main(a),
        None => None,
    };
    if listed is Some {
        listed
    } else {
        main_agent(v)
    }
}

pub fn try_main_agent(v: &Json) -> (r: Option<MainAgent>)
    ensures
        r.deep_view() == main_agent_in(v.deep_view()),
{
    if let Some(agents) = array_in(v.get("agents")) {
        let ghost all = agents.deep_view();
        let mut i: usize = 0;
        assert(all.skip(0) =~= all);
        while i < agents.len()
            invariant
                i <= agents@.len(),
                all == agents.deep_view(),
                items_in(v.deep_view().field("agents"@)) == Some(all),
                first_main(all.skip(i as int)) == first_main(all),
            decreases agents@.len() - i,
        {
            assert(all.skip(i as int)[0] == agents@[i as int].deep_view());
            assert(all.skip(i as int).drop_first() =~= all.skip(i + 1));
            if let Some(m) = MainAgent::decode(&agents[i]) {
                if same(m.id.as_str(), "main") {
                    return Some(m);
                }
            }
            i = i + 1;
        }
        assert(all.skip(i as int).len() == 0);
    }
    MainAgent::decode(v)
}

} // verus!
