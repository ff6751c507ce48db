//! Reading records: each member under its own name, and no other.
use vstd::prelude::*;

use crate::json::{flag_in, items_in, text_in, JsonView};
use crate::net::fields::read_all;
use crate::net::rpc::{
    agent_event_payload, agent_identity, agent_info, agent_model_ref, approval_event_payload,
    channel, cron_event_payload, cron_job, cron_state, log_tail_payload, main_agent, session_info,
    session_usage_point,
};

verus! {

/// The integer that a member holds.
pub open spec fn int_in(o: Option<JsonView>) -> Option<i64> {
    match o {
        Some(JsonView::Int(n)) => Some(n),
        _ => None,
    }
}

/// Whether a member may stand where a text may be missing.
pub open spec fn may_be_text(o: Option<JsonView>) -> bool {
    o is None || o == Some(JsonView::Null) || text_in(o) is Some
}

/// Whether a member may stand where an integer may be missing.
pub open spec fn may_be_int(o: Option<JsonView>) -> bool {
    o is None || o == Some(JsonView::Null) || int_in(o) is Some
}


/// An object reads as a cron state exactly when its members have the right types,
/// and each of the cron state's fields is the member of its name.
pub proof fn cron_state_reads_its_members(v: JsonView)
    requires
        v is Object,
    ensures
        cron_state(v) is Some <==> {
            &&& may_be_int(v.field("nextRunAtMs"@))
            &&& may_be_int(v.field("lastRunAtMs"@))
            &&& may_be_text(v.field("lastStatus"@))
            &&& may_be_int(v.field("lastDurationMs"@))
            &&& may_be_text(v.field("lastError"@))
            &&& (v.field("running"@) is None || flag_in(v.field("running"@)) is Some)
        },
        cron_state(v) matches Some(r) ==> {
            &&& r.next_run_at_ms == int_in(v.field("nextRunAtMs"@))
            &&& r.last_run_at_ms == int_in(v.field("lastRunAtMs"@))
            &&& r.last_status == text_in(v.field("lastStatus"@))
            &&& r.last_duration_ms == int_in(v.field("lastDurationMs"@))
            &&& r.last_error == text_in(v.field("lastError"@))
            &&& r.running == (flag_in(v.field("running"@)) == Some(true))
        },
{
}

/// An object reads as a cron job exactly when its members have the right types,
/// and each of the cron job's fields is the member of its name.
pub proof fn cron_job_reads_its_members(v: JsonView)
    requires
        v is Object,
    ensures
        cron_job(v) is Some <==> {
            &&& text_in(v.field("name"@)) is Some
            &&& may_be_text(v.field("id"@))
            &&& (v.field("state"@) matches Some(x) ==> cron_state(x) is Some)
        },
        cron_job(v) matches Some(r) ==> {
            &&& text_in(v.field("name"@)) == Some(r.name)
            &&& r.id == text_in(v.field("id"@))
            &&& (v.field("state"@) matches Some(x) ==> cron_state(x) == Some(r.state))
            &&& v.field("state"@) is None ==> {
                &&& !r.state.running
                &&& r.state.last_status is None
                &&& r.state.last_error is None
                &&& r.state.next_run_at_ms is None
                &&& r.state.last_run_at_ms is None
                &&& r.state.last_duration_ms is None
            }
        },
{
}

/// An object reads as a channel exactly when its members have the right types,
/// and each of the channel's fields is the member of its name.
pub proof fn channel_reads_its_members(v: JsonView)
    requires
        v is Object,
    ensures
        channel(v) is Some <==> {
            &&& text_in(v.field("name"@)) is Some
            &&& (v.field("enabled"@) is None || flag_in(v.field("enabled"@)) is Some)
            &&& (v.field("connected"@) is None || flag_in(v.field("connected"@)) is Some)
            &&& may_be_text(v.field("lastError"@))
        },
        channel(v) matches Some(r) ==> {
            &&& text_in(v.field("name"@)) == Some(r.name)
            &&& r.enabled == (flag_in(v.field("enabled"@)) == Some(true))
            &&& r.connected == (flag_in(v.field("connected"@)) == Some(true))
            &&& r.last_error == text_in(v.field("lastError"@))
        },
{
}

/// An object reads as a main agent exactly when its members have the right types,
/// and each of the main agent's fields is the member of its name.
pub proof fn main_agent_reads_its_members(v: JsonView)
    requires
        v is Object,
    ensures
        main_agent(v) is Some <==> {
            &&& text_in(v.field("id"@)) is Some
            &&& may_be_text(v.field("model"@))
            &&& may_be_text(v.field("state"@))
        },
        main_agent(v) matches Some(r) ==> {
            &&& text_in(v.field("id"@)) == Some(r.id)
            &&& r.model == text_in(v.field("model"@))
            &&& r.state == text_in(v.field("state"@))
        },
{
}

/// An object reads as a persona exactly when its members have the right types,
/// and each of the persona's fields is the member of its name.
pub proof fn agent_identity_reads_its_members(v: JsonView)
    requires
        v is Object,
    ensures
        agent_identity(v) is Some <==> {
            &&& may_be_text(v.field("name"@))
            &&& may_be_text(v.field("emoji"@))
            &&& may_be_text(v.field("avatar"@))
            &&& may_be_text(v.field("theme"@))
        },
        agent_identity(v) matches Some(r) ==> {
            &&& r.name == text_in(v.field("name"@))
            &&& r.emoji == text_in(v.field("emoji"@))
            &&& r.avatar == text_in(v.field("avatar"@))
            &&& r.theme == text_in(v.field("theme"@))
        },
{
}

/// An object reads as a list entry of an agent exactly when its members have the right types,
/// and each of the list entry of an agent's fields is the member of its name.
pub proof fn agent_info_reads_its_members(v: JsonView)
    requires
        v is Object,
    ensures
        agent_info(v) is Some <==> {
            &&& text_in(v.field("id"@)) is Some
            &&& may_be_text(v.field("name"@))
            &&& (v.field("identity"@) matches Some(x) ==> x is Null || agent_identity(x) is Some)
            &&& (v.field("model"@) matches Some(x) ==> x is Null || agent_model_ref(x) is Some)
            &&& may_be_text(v.field("workspace"@))
        },
        agent_info(v) matches Some(r) ==> {
            &&& text_in(v.field("id"@)) == Some(r.id)
            &&& r.name == text_in(v.field("name"@))
            &&& (v.field("identity"@) matches Some(x) ==> (x is Null
                ==> r.identity is None) && (!(x is Null) ==> r.identity == agent_identity(x)))
            &&& (v.field("identity"@) is None ==> r.identity is None)
            &&& (v.field("model"@) matches Some(x) ==> (x is Null
                ==> r.model is None) && (!(x is Null) ==> r.model == agent_model_ref(x)))
            &&& (v.field("model"@) is None ==> r.model is None)
            &&& r.workspace == text_in(v.field("workspace"@))
        },
{
}

/// An object reads as a cron event exactly when its members have the right types,
/// and each of the cron event's fields is the member of its name.
pub proof fn cron_event_payload_reads_its_members(v: JsonView)
    requires
        v is Object,
    ensures
        cron_event_payload(v) is Some <==> {
            &&& text_in(v.field("jobId"@)) is Some
            &&& may_be_text(v.field("jobName"@))
            &&& text_in(v.field("action"@)) is Some
            &&& may_be_int(v.field("runAtMs"@))
            &&& may_be_int(v.field("durationMs"@))
            &&& may_be_text(v.field("status"@))
            &&& may_be_text(v.field("error"@))
            &&& may_be_int(v.field("nextRunAtMs"@))
        },
        cron_event_payload(v) matches Some(r) ==> {
            &&& text_in(v.field("jobId"@)) == Some(r.job_id)
            &&& r.job_name == text_in(v.field("jobName"@))
            &&& text_in(v.field("action"@)) == Some(r.action)
            &&& r.run_at_ms == int_in(v.field("runAtMs"@))
            &&& r.duration_ms == int_in(v.field("durationMs"@))
            &&& r.status == text_in(v.field("status"@))
            &&& r.error == text_in(v.field("error"@))
            &&& r.next_run_at_ms == int_in(v.field("nextRunAtMs"@))
        },
{
}

/// An object reads as a session exactly when its members have the right types,
/// and each of the session's fields is the member of its name.
pub proof fn session_info_reads_its_members(v: JsonView)
    requires
        v is Object,
    ensures
        session_info(v) is Some <==> {
            &&& (v.field("key"@) is None || v.field("sessionKey"@) is None)
            &&& (text_in(v.field("key"@)) is Some || text_in(v.field("sessionKey"@)) is Some)
            &&& may_be_int(v.field("totalTokens"@))
            &&& may_be_int(v.field("contextTokens"@))
            &&& may_be_int(v.field("inputTokens"@))
            &&& may_be_int(v.field("outputTokens"@))
            &&& may_be_int(v.field("updatedAt"@))
            &&& may_be_int(v.field("ageMs"@))
            &&& may_be_text(v.field("model"@))
            &&& may_be_text(v.field("kind"@))
            &&& may_be_text(v.field("thinkingLevel"@))
            &&& may_be_text(v.field("agentId"@))
        },
        session_info(v) matches Some(r) ==> {
            &&& (text_in(v.field("key"@)) matches Some(k) ==> r.key == k)
            &&& (text_in(v.field("sessionKey"@)) matches Some(k) ==> r.key == k)
            &&& r.total_tokens == int_in(v.field("totalTokens"@))
            &&& r.context_tokens == int_in(v.field("contextTokens"@))
            &&& r.input_tokens == int_in(v.field("inputTokens"@))
            &&& r.output_tokens == int_in(v.field("outputTokens"@))
            &&& r.updated_at_ms == int_in(v.field("updatedAt"@))
            &&& r.age_ms == int_in(v.field("ageMs"@))
            &&& r.model == text_in(v.field("model"@))
            &&& r.kind == text_in(v.field("kind"@))
            &&& r.thinking_level == text_in(v.field("thinkingLevel"@))
            &&& r.agent_id == text_in(v.field("agentId"@))
        },
{
}

/// An object reads as a usage point exactly when its members have the right types,
/// and each of the usage point's fields is the member of its name.
pub proof fn session_usage_point_reads_its_members(v: JsonView)
    requires
        v is Object,
    ensures
        session_usage_point(v) is Some <==> {
            &&& (v.field("timestamp"@) is None || int_in(v.field("timestamp"@)) is Some)
            &&& (v.field("input"@) is None || int_in(v.field("input"@)) is Some)
            &&& (v.field("output"@) is None || int_in(v.field("output"@)) is Some)
            &&& (v.field("cacheRead"@) is None || int_in(v.field("cacheRead"@)) is Some)
            &&& (v.field("cacheWrite"@) is None || int_in(v.field("cacheWrite"@)) is Some)
            &&& (v.field("totalTokens"@) is None || int_in(v.field("totalTokens"@)) is Some)
            &&& (v.field("cumulativeTokens"@) is None
                || int_in(v.field("cumulativeTokens"@)) is Some)
            &&& (v.field("cost"@) matches Some(n) ==> n.is_number())
            &&& (v.field("cumulativeCost"@) matches Some(n) ==> n.is_number())
        },
        session_usage_point(v) matches Some(r) ==> {
            &&& (v.field("timestamp"@) is Some
                ==> int_in(v.field("timestamp"@)) == Some(r.timestamp))
            &&& (v.field("timestamp"@) is None ==> r.timestamp == 0)
            &&& (v.field("input"@) is Some ==> int_in(v.field("input"@)) == Some(r.input))
            &&& (v.field("input"@) is None ==> r.input == 0)
            &&& (v.field("output"@) is Some ==> int_in(v.field("output"@)) == Some(r.output))
            &&& (v.field("output"@) is None ==> r.output == 0)
            &&& (v.field("cacheRead"@) is Some
                ==> int_in(v.field("cacheRead"@)) == Some(r.cache_read))
            &&& (v.field("cacheRead"@) is None ==> r.cache_read == 0)
            &&& (v.field("cacheWrite"@) is Some
                ==> int_in(v.field("cacheWrite"@)) == Some(r.cache_write))
            &&& (v.field("cacheWrite"@) is None ==> r.cache_write == 0)
            &&& (v.field("totalTokens"@) is Some
                ==> int_in(v.field("totalTokens"@)) == Some(r.total_tokens))
            &&& (v.field("totalTokens"@) is None ==> r.total_tokens == 0)
            &&& (v.field("cumulativeTokens"@) is Some
                ==> int_in(v.field("cumulativeTokens"@)) == Some(r.cumulative_tokens))
            &&& (v.field("cumulativeTokens"@) is None ==> r.cumulative_tokens == 0)
            &&& (v.field("cost"@) matches Some(JsonView::Num(t)) ==> r.cost == t)
            &&& (int_in(v.field("cost"@)) matches Some(n)
                ==> r.cost == crate::text::signed_decimal(n as int))
            &&& (v.field("cost"@) is None ==> r.cost == "0"@)
            &&& (v.field("cumulativeCost"@) matches Some(JsonView::Num(t))
                ==> r.cumulative_cost == t)
            &&& (int_in(v.field("cumulativeCost"@)) matches Some(n)
                ==> r.cumulative_cost == crate::text::signed_decimal(n as int))
            &&& (v.field("cumulativeCost"@) is None ==> r.cumulative_cost == "0"@)
        },
{
}

/// An object reads as a slice of the log exactly when its members have the right types,
/// and each of the slice of the log's fields is the member of its name.
pub proof fn log_tail_payload_reads_its_members(v: JsonView)
    requires
        v is Object,
    ensures
        log_tail_payload(v) is Some <==> {
            &&& (v.field("cursor"@) is None || int_in(v.field("cursor"@)) is Some)
            &&& (v.field("lines"@) matches Some(l)
                ==> l is Array && forall|i: int| 0 <= i < l->Array_0.len()
                ==> (#[trigger] l->Array_0[i]) is Str)
            &&& (v.field("reset"@) is None || flag_in(v.field("reset"@)) is Some)
        },
        log_tail_payload(v) matches Some(r) ==> {
            &&& (v.field("cursor"@) is Some ==> int_in(v.field("cursor"@)) == Some(r.cursor))
            &&& (v.field("cursor"@) is None ==> r.cursor == 0)
            &&& (items_in(v.field("lines"@)) matches Some(a)
                ==> r.lines.len() == a.len() && forall|i: int| 0 <= i < a.len()
                ==> #[trigger] a[i] == JsonView::Str(r.lines[i]))
            &&& (v.field("lines"@) is None ==> r.lines.len() == 0)
            &&& r.reset == (flag_in(v.field("reset"@)) == Some(true))
        },
{
    assert forall|a: Seq<JsonView>, i: int| 0 <= i < a.len() implies ((#[trigger] a[i]) is Str
        <==> a[i].as_text() is Some) by {}
    if let Some(JsonView::Array(a)) = v.field("lines"@) {
        let f = |x: JsonView| x.as_text();
        if crate::net::fields::text_list(JsonView::Array(a)) is Some {
            assert forall|i: int| 0 <= i < a.len() implies #[trigger] a[i] is Str by {
                assert(f(a[i]) is Some);
            }
        }
    }
}

/// An object reads as an agent event exactly when its members have the right types,
/// and each of the agent event's fields is the member of its name.
pub proof fn agent_event_payload_reads_its_members(v: JsonView)
    requires
        v is Object,
    ensures
        agent_event_payload(v) is Some <==> {
            &&& text_in(v.field("stream"@)) is Some
            &&& may_be_text(v.field("sessionKey"@))
        },
        agent_event_payload(v) matches Some(r) ==> {
            &&& text_in(v.field("stream"@)) == Some(r.stream)
            &&& r.session_key == text_in(v.field("sessionKey"@))
        },
{
}

/// An object reads as a request for approval exactly when its members have the right types,
/// and each of the request for approval's fields is the member of its name.
pub proof fn approval_event_payload_reads_its_members(v: JsonView)
    requires
        v is Object,
    ensures
        approval_event_payload(v) is Some <==> {
            &&& may_be_text(v.field("id"@))
            &&& may_be_text(v.field("sessionKey"@))
            &&& may_be_text(v.field("tool"@))
            &&& may_be_text(v.field("summary"@))
        },
        approval_event_payload(v) matches Some(r) ==> {
            &&& r.id == text_in(v.field("id"@))
            &&& r.session_key == text_in(v.field("sessionKey"@))
            &&& r.tool == text_in(v.field("tool"@))
            &&& r.summary == text_in(v.field("summary"@))
        },
{
}

/// The model of an agent is read by its primary one, and its fallbacks in
/// order.
pub proof fn agent_model_ref_reads_its_members(v: JsonView, a: Seq<JsonView>)
    requires
        v is Object,
    ensures
        agent_model_ref(v) matches Some(r) ==> {
            &&& r.primary == text_in(v.field("primary"@))
            &&& v.field("fallbacks"@) is None ==> r.fallbacks is None
            &&& v.field("fallbacks"@) == Some(JsonView::Array(a)) ==> {
                &&& r.fallbacks is Some
                &&& r.fallbacks->Some_0.len() == a.len()
                &&& forall|i: int|
                    0 <= i < a.len() ==> #[trigger] a[i] == JsonView::Str(r.fallbacks->Some_0[i])
            }
        },
        may_be_text(v.field("primary"@)) && v.field("fallbacks"@) is None ==> agent_model_ref(v)
            is Some,
{
    if v.field("fallbacks"@) == Some(JsonView::Array(a)) && agent_model_ref(v) is Some {
        let f = |x: JsonView| x.as_text();
        assert forall|i: int| 0 <= i < a.len() implies (#[trigger] a[i]) is Str by {
            assert(f(a[i]) is Some);
        }
    }
}

// ---------------------------------------------------------------------
// Records written as lists
// ---------------------------------------------------------------------

/// The item of a list at a place.
pub open spec fn item_in(v: JsonView, i: int) -> Option<JsonView> {
    match v {
        JsonView::Array(a) => if 0 <= i < a.len() {
            Some(a[i])
        } else {
            None
        },
        _ => None,
    }
}


/// A list reads as a cron state member by member, in the record's order.
pub proof fn cron_state_reads_a_list(v: JsonView)
    requires
        v is Array,
    ensures
        cron_state(v) matches Some(r) ==> {
            &&& v->Array_0.len() <= 6
            &&& r.next_run_at_ms == int_in(item_in(v, 0))
            &&& r.last_run_at_ms == int_in(item_in(v, 1))
            &&& r.last_status == text_in(item_in(v, 2))
            &&& r.last_duration_ms == int_in(item_in(v, 3))
            &&& r.last_error == text_in(item_in(v, 4))
            &&& r.running == (flag_in(item_in(v, 5)) == Some(true))
        },
{
}

/// A list reads as a cron job member by member, in the record's order.
pub proof fn cron_job_reads_a_list(v: JsonView)
    requires
        v is Array,
    ensures
        cron_job(v) matches Some(r) ==> {
            &&& v->Array_0.len() <= 3
            &&& text_in(item_in(v, 0)) == Some(r.name)
            &&& r.id == text_in(item_in(v, 1))
            &&& (item_in(v, 2) matches Some(x) ==> cron_state(x) == Some(r.state))
        },
{
}

/// A list reads as a channel member by member, in the record's order.
pub proof fn channel_reads_a_list(v: JsonView)
    requires
        v is Array,
    ensures
        channel(v) matches Some(r) ==> {
            &&& v->Array_0.len() <= 4
            &&& text_in(item_in(v, 0)) == Some(r.name)
            &&& r.enabled == (flag_in(item_in(v, 1)) == Some(true))
            &&& r.connected == (flag_in(item_in(v, 2)) == Some(true))
            &&& r.last_error == text_in(item_in(v, 3))
        },
{
}

/// A list reads as a main agent member by member, in the record's order.
pub proof fn main_agent_reads_a_list(v: JsonView)
    requires
        v is Array,
    ensures
        main_agent(v) matches Some(r) ==> {
            &&& v->Array_0.len() <= 3
            &&& text_in(item_in(v, 0)) == Some(r.id)
            &&& r.model == text_in(item_in(v, 1))
            &&& r.state == text_in(item_in(v, 2))
        },
{
}

/// A list reads as a persona member by member, in the record's order.
pub proof fn agent_identity_reads_a_list(v: JsonView)
    requires
        v is Array,
    ensures
        agent_identity(v) matches Some(r) ==> {
            &&& v->Array_0.len() <= 4
            &&& r.name == text_in(item_in(v, 0))
            &&& r.emoji == text_in(item_in(v, 1))
            &&& r.avatar == text_in(item_in(v, 2))
            &&& r.theme == text_in(item_in(v, 3))
        },
{
}

/// A list reads as a list entry of an agent member by member, in the record's order.
pub proof fn agent_info_reads_a_list(v: JsonView)
    requires
        v is Array,
    ensures
        agent_info(v) matches Some(r) ==> {
            &&& v->Array_0.len() <= 5
            &&& text_in(item_in(v, 0)) == Some(r.id)
            &&& r.name == text_in(item_in(v, 1))
            &&& (item_in(v, 2) matches Some(x) ==> !(x is Null) ==> r.identity == agent_identity(x))
            &&& (item_in(v, 2) is None ==> r.identity is None)
            &&& (item_in(v, 3) matches Some(x) ==> !(x is Null) ==> r.model == agent_model_ref(x))
            &&& (item_in(v, 3) is None ==> r.model is None)
            &&& r.workspace == text_in(item_in(v, 4))
        },
{
}

/// A list reads as a cron event member by member, in the record's order.
pub proof fn cron_event_payload_reads_a_list(v: JsonView)
    requires
        v is Array,
    ensures
        cron_event_payload(v) matches Some(r) ==> {
            &&& v->Array_0.len() <= 8
            &&& text_in(item_in(v, 0)) == Some(r.job_id)
            &&& r.job_name == text_in(item_in(v, 1))
            &&& text_in(item_in(v, 2)) == Some(r.action)
            &&& r.run_at_ms == int_in(item_in(v, 3))
            &&& r.duration_ms == int_in(item_in(v, 4))
            &&& r.status == text_in(item_in(v, 5))
            &&& r.error == text_in(item_in(v, 6))
            &&& r.next_run_at_ms == int_in(item_in(v, 7))
        },
{
}

/// A list reads as a session member by member, in the record's order.
pub proof fn session_info_reads_a_list(v: JsonView)
    requires
        v is Array,
    ensures
        session_info(v) matches Some(r) ==> {
            &&& v->Array_0.len() <= 11
            &&& text_in(item_in(v, 0)) == Some(r.key)
            &&& r.total_tokens == int_in(item_in(v, 1))
            &&& r.context_tokens == int_in(item_in(v, 2))
            &&& r.input_tokens == int_in(item_in(v, 3))
            &&& r.output_tokens == int_in(item_in(v, 4))
            &&& r.updated_at_ms == int_in(item_in(v, 5))
            &&& r.age_ms == int_in(item_in(v, 6))
            &&& r.model == text_in(item_in(v, 7))
            &&& r.kind == text_in(item_in(v, 8))
            &&& r.thinking_level == text_in(item_in(v, 9))
            &&& r.agent_id == text_in(item_in(v, 10))
        },
{
}

/// A list reads as an usage point member by member, in the record's order.
pub proof fn session_usage_point_reads_a_list(v: JsonView)
    requires
        v is Array,
    ensures
        session_usage_point(v) matches Some(r) ==> {
            &&& v->Array_0.len() <= 9
            &&& (item_in(v, 0) is Some ==> int_in(item_in(v, 0)) == Some(r.timestamp))
            &&& (item_in(v, 0) is None ==> r.timestamp == 0)
            &&& (item_in(v, 1) is Some ==> int_in(item_in(v, 1)) == Some(r.input))
            &&& (item_in(v, 1) is None ==> r.input == 0)
            &&& (item_in(v, 2) is Some ==> int_in(item_in(v, 2)) == Some(r.output))
            &&& (item_in(v, 2) is None ==> r.output == 0)
            &&& (item_in(v, 3) is Some ==> int_in(item_in(v, 3)) == Some(r.cache_read))
            &&& (item_in(v, 3) is None ==> r.cache_read == 0)
            &&& (item_in(v, 4) is Some ==> int_in(item_in(v, 4)) == Some(r.cache_write))
            &&& (item_in(v, 4) is None ==> r.cache_write == 0)
            &&& (item_in(v, 5) is Some ==> int_in(item_in(v, 5)) == Some(r.total_tokens))
            &&& (item_in(v, 5) is None ==> r.total_tokens == 0)
            &&& (item_in(v, 6) is Some ==> int_in(item_in(v, 6)) == Some(r.cumulative_tokens))
            &&& (item_in(v, 6) is None ==> r.cumulative_tokens == 0)
            &&& (item_in(v, 7) matches Some(JsonView::Num(t)) ==> r.cost == t)
            &&& (item_in(v, 8) matches Some(JsonView::Num(t)) ==> r.cumulative_cost == t)
        },
{
}

/// A list reads as a slice of the log member by member, in the record's order.
pub proof fn log_tail_payload_reads_a_list(v: JsonView)
    requires
        v is Array,
    ensures
        log_tail_payload(v) matches Some(r) ==> {
            &&& v->Array_0.len() <= 3
            &&& (item_in(v, 0) is Some ==> int_in(item_in(v, 0)) == Some(r.cursor))
            &&& (item_in(v, 0) is None ==> r.cursor == 0)
            &&& (items_in(item_in(v, 1)) matches Some(a) ==> r.lines.len() == a.len())
            &&& r.reset == (flag_in(item_in(v, 2)) == Some(true))
        },
{
}

/// A list reads as an agent event member by member, in the record's order.
pub proof fn agent_event_payload_reads_a_list(v: JsonView)
    requires
        v is Array,
    ensures
        agent_event_payload(v) matches Some(r) ==> {
            &&& v->Array_0.len() <= 2
            &&& text_in(item_in(v, 0)) == Some(r.stream)
            &&& r.session_key == text_in(item_in(v, 1))
        },
{
}

/// A list reads as a request for approval member by member, in the record's order.
pub proof fn approval_event_payload_reads_a_list(v: JsonView)
    requires
        v is Array,
    ensures
        approval_event_payload(v) matches Some(r) ==> {
            &&& v->Array_0.len() <= 4
            &&& r.id == text_in(item_in(v, 0))
            &&& r.session_key == text_in(item_in(v, 1))
            &&& r.tool == text_in(item_in(v, 2))
            &&& r.summary == text_in(item_in(v, 3))
        },
{
}

/// A list of records is read entry by entry, in order, and not at all when one
/// of them cannot be read.
pub proof fn lists_are_read_in_order<T>(a: Seq<JsonView>, f: spec_fn(JsonView) -> Option<T>)
    ensures
        read_all(a, f) is Some <==> forall|i: int| 0 <= i < a.len()
            ==> (#[trigger] f(a[i])) is Some,
        read_all(a, f) matches Some(l) ==> l.len() == a.len() && forall|i: int|
            0 <= i < a.len() ==> #[trigger] f(a[i]) == Some(l[i]),
{
}

} // verus!
