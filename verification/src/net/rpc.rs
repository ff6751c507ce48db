//! Typed shapes for gateway responses.
//!
//! Shapes stay loose on purpose: only the fields that are needed are read and
//! the rest is ignored, so that unknown fields are tolerated.
use vstd::prelude::*;

use crate::json::{parse, parsed, Json, JsonView};
use crate::net::fields::{
    flag_or_false, get_flag, get_int, get_number, get_optional_int, get_optional_text, get_slot,
    get_text, get_text_list, int_or_zero, is_record, number_or_zero, optional_int, optional_text,
    read_all, record_shape, required_text, slot, text_list,
};
use crate::text::cat3;

verus! {

/// Run state of a cron job.
#[derive(Debug, PartialEq)]
pub struct CronState {
    pub next_run_at_ms: Option<i64>,
    pub last_run_at_ms: Option<i64>,
    pub last_status: Option<String>,
    pub last_duration_ms: Option<i64>,
    pub last_error: Option<String>,
    /// Set when the cron is currently executing.
    pub running: bool,
}

/// What [`CronState`] holds, as mathematical values.
#[verifier::ext_equal]
pub struct CronStateView {
    pub next_run_at_ms: Option<i64>,
    pub last_run_at_ms: Option<i64>,
    pub last_status: Option<Seq<char>>,
    pub last_duration_ms: Option<i64>,
    pub last_error: Option<Seq<char>>,
    pub running: bool,
}

impl DeepView for CronState {
    type V = CronStateView;

    open spec fn deep_view(&self) -> CronStateView {
        CronStateView {
            next_run_at_ms: self.next_run_at_ms.deep_view(),
            last_run_at_ms: self.last_run_at_ms.deep_view(),
            last_status: self.last_status.deep_view(),
            last_duration_ms: self.last_duration_ms.deep_view(),
            last_error: self.last_error.deep_view(),
            running: self.running.deep_view(),
        }
    }
}

impl Clone for CronState {
    fn clone(&self) -> (r: CronState)
        ensures
            r.deep_view() == self.deep_view(),
    {
        CronState {
            next_run_at_ms: self.next_run_at_ms.clone(),
            last_run_at_ms: self.last_run_at_ms.clone(),
            last_status: self.last_status.clone(),
            last_duration_ms: self.last_duration_ms.clone(),
            last_error: self.last_error.clone(),
            running: self.running,
        }
    }
}

/// Reads [`CronState`] from a value; `None` when the value has another shape.
pub open spec fn cron_state(v: JsonView) -> Option<CronStateView> {
    if !is_record(v, 6) {
        None
    } else {
        let next_run_at_ms = optional_int(v, "nextRunAtMs"@, 0, false);
        let last_run_at_ms = optional_int(v, "lastRunAtMs"@, 1, false);
        let last_status = optional_text(v, "lastStatus"@, 2, false);
        let last_duration_ms = optional_int(v, "lastDurationMs"@, 3, false);
        let last_error = optional_text(v, "lastError"@, 4, false);
        let running = flag_or_false(v, "running"@, 5);
        if next_run_at_ms is Some && last_run_at_ms is Some && last_status is Some && last_duration_ms is Some && last_error is Some && running is Some {
            Some(
                CronStateView {
                    next_run_at_ms: next_run_at_ms->Some_0,
                    last_run_at_ms: last_run_at_ms->Some_0,
                    last_status: last_status->Some_0,
                    last_duration_ms: last_duration_ms->Some_0,
                    last_error: last_error->Some_0,
                    running: running->Some_0,
                },
            )
        } else {
            None
        }
    }
}

impl CronState {
    pub fn decode(v: &Json) -> (r: Option<CronState>)
        ensures
            r.deep_view() == cron_state(v.deep_view()),
    {
        if !record_shape(v, 6) {
            return None;
        }
        let next_run_at_ms: Option<i64> = get_optional_int(v, "nextRunAtMs", 0, false)?;
        let last_run_at_ms: Option<i64> = get_optional_int(v, "lastRunAtMs", 1, false)?;
        let last_status: Option<String> = get_optional_text(v, "lastStatus", 2, false)?;
        let last_duration_ms: Option<i64> = get_optional_int(v, "lastDurationMs", 3, false)?;
        let last_error: Option<String> = get_optional_text(v, "lastError", 4, false)?;
        let running: bool = get_flag(v, "running", 5)?;
        Some(CronState { next_run_at_ms, last_run_at_ms, last_status, last_duration_ms, last_error, running })
    }
}

/// The state of a job of which nothing has been reported.
pub open spec fn idle_state() -> CronStateView {
    CronStateView {
        next_run_at_ms: None,
        last_run_at_ms: None,
        last_status: None,
        last_duration_ms: None,
        last_error: None,
        running: false,
    }
}

impl Default for CronState {
    fn default() -> (r: CronState)
        ensures
            r.deep_view() == idle_state(),
    {
        CronState {
            next_run_at_ms: None,
            last_run_at_ms: None,
            last_status: None,
            last_duration_ms: None,
            last_error: None,
            running: false,
        }
    }
}

/// One entry in `cron.list` responses. `id` is the stable UUID used by `cron`
/// broadcast events; `name` is the human-readable identity the roster keys by.
#[derive(Debug, PartialEq)]
pub struct CronJob {
    pub name: String,
    pub id: Option<String>,
    pub state: CronState,
}

/// What [`CronJob`] holds, as mathematical values.
#[verifier::ext_equal]
pub struct CronJobView {
    pub name: Seq<char>,
    pub id: Option<Seq<char>>,
    pub state: CronStateView,
}

impl DeepView for CronJob {
    type V = CronJobView;

    open spec fn deep_view(&self) -> CronJobView {
        CronJobView {
            name: self.name.deep_view(),
            id: self.id.deep_view(),
            state: self.state.deep_view(),
        }
    }
}

impl Clone for CronJob {
    fn clone(&self) -> (r: CronJob)
        ensures
            r.deep_view() == self.deep_view(),
    {
        CronJob {
            name: self.name.clone(),
            id: self.id.clone(),
            state: self.state.clone(),
        }
    }
}

/// Reads [`CronJob`] from a value; `None` when the value has another shape.
pub open spec fn cron_job(v: JsonView) -> Option<CronJobView> {
    if !is_record(v, 3) {
        None
    } else {
        let name = required_text(v, "name"@, 0);
        let id = optional_text(v, "id"@, 1, true);
        let state = match slot(v, "state"@, 2) {
            None => Some(idle_state()),
            Some(s) => cron_state(s),
        };
        if name is Some && id is Some && state is Some {
            Some(
                CronJobView {
                    name: name->Some_0,
                    id: id->Some_0,
                    state: state->Some_0,
                },
            )
        } else {
            None
        }
    }
}

impl CronJob {
    pub fn decode(v: &Json) -> (r: Option<CronJob>)
        ensures
            r.deep_view() == cron_job(v.deep_view()),
    {
        if !record_shape(v, 3) {
            return None;
        }
        let name: String = get_text(v, "name", 0)?;
        let id: Option<String> = get_optional_text(v, "id", 1, true)?;
        let state: CronState = match get_slot(v, "state", 2) {
            None => CronState::default(),
            Some(s) => CronState::decode(s)?,
        };
        Some(CronJob { name, id, state })
    }

    /// Reads it from JSON text.
    pub fn from_text(text: &str) -> (r: Option<CronJob>)
        ensures
            r.deep_view() == (match parsed(text@) {
                Ok(v) => cron_job(v),
                Err(_) => None,
            }),
    {
        match parse(text) {
            Ok(v) => CronJob::decode(&v),
            Err(_) => None,
        }
    }
}

/// A list of [`CronJob`].
pub open spec fn cron_job_list(v: JsonView) -> Option<Seq<CronJobView>> {
    match v {
        JsonView::Array(a) => read_all(a, |x: JsonView| cron_job(x)),
        _ => None,
    }
}

pub fn decode_cron_jobs(v: &Json) -> (r: Option<Vec<CronJob>>)
    ensures
        r.deep_view() == cron_job_list(v.deep_view()),
{
    match v {
        Json::Array(a) => {
            proof {
                crate::json::array_tree(*a);
            }
            let ghost f = |x: JsonView| cron_job(x);
            let ghost all = a.deep_view();
            let mut out: Vec<CronJob> = Vec::new();
            let mut i: usize = 0;
            while i < a.len()
                invariant
                    i <= a@.len(),
                    all == a.deep_view(),
                    f == (|x: JsonView| cron_job(x)),
                    v.deep_view() == JsonView::Array(all),
                    out@.len() == i,
                    forall|j: int|
                        0 <= j < i ==> (#[trigger] f(all[j])) == Some(out@[j].deep_view()),
                decreases a@.len() - i,
            {
                assert(all[i as int] == a@[i as int].deep_view());
                match CronJob::decode(&a[i]) {
                    Some(x) => {
                        out.push(x);
                    },
                    None => {
                        assert(f(all[i as int]) is None);
                        return None;
                    },
                }
                i = i + 1;
            }
            assert(out.deep_view() =~= read_all(all, f)->Some_0);
            Some(out)
        },
        _ => None,
    }
}

/// One entry in `channels.status`.
#[derive(Debug, PartialEq)]
pub struct Channel {
    pub name: String,
    pub enabled: bool,
    pub connected: bool,
    pub last_error: Option<String>,
}

/// What [`Channel`] holds, as mathematical values.
#[verifier::ext_equal]
pub struct ChannelView {
    pub name: Seq<char>,
    pub enabled: bool,
    pub connected: bool,
    pub last_error: Option<Seq<char>>,
}

impl DeepView for Channel {
    type V = ChannelView;

    open spec fn deep_view(&self) -> ChannelView {
        ChannelView {
            name: self.name.deep_view(),
            enabled: self.enabled.deep_view(),
            connected: self.connected.deep_view(),
            last_error: self.last_error.deep_view(),
        }
    }
}

impl Clone for Channel {
    fn clone(&self) -> (r: Channel)
        ensures
            r.deep_view() == self.deep_view(),
    {
        Channel {
            name: self.name.clone(),
            enabled: self.enabled,
            connected: self.connected,
            last_error: self.last_error.clone(),
        }
    }
}

/// Reads [`Channel`] from a value; `None` when the value has another shape.
pub open spec fn channel(v: JsonView) -> Option<ChannelView> {
    if !is_record(v, 4) {
        None
    } else {
        let name = required_text(v, "name"@, 0);
        let enabled = flag_or_false(v, "enabled"@, 1);
        let connected = flag_or_false(v, "connected"@, 2);
        let last_error = optional_text(v, "lastError"@, 3, false);
        if name is Some && enabled is Some && connected is Some && last_error is Some {
            Some(
                ChannelView {
                    name: name->Some_0,
                    enabled: enabled->Some_0,
                    connected: connected->Some_0,
                    last_error: last_error->Some_0,
                },
            )
        } else {
            None
        }
    }
}

impl Channel {
    pub fn decode(v: &Json) -> (r: Option<Channel>)
        ensures
            r.deep_view() == channel(v.deep_view()),
    {
        if !record_shape(v, 4) {
            return None;
        }
        let name: String = get_text(v, "name", 0)?;
        let enabled: bool = get_flag(v, "enabled", 1)?;
        let connected: bool = get_flag(v, "connected", 2)?;
        let last_error: Option<String> = get_optional_text(v, "lastError", 3, false)?;
        Some(Channel { name, enabled, connected, last_error })
    }

    /// Reads it from JSON text.
    pub fn from_text(text: &str) -> (r: Option<Channel>)
        ensures
            r.deep_view() == (match parsed(text@) {
                Ok(v) => channel(v),
                Err(_) => None,
            }),
    {
        match parse(text) {
            Ok(v) => Channel::decode(&v),
            Err(_) => None,
        }
    }
}

/// A list of [`Channel`].
pub open spec fn channel_list(v: JsonView) -> Option<Seq<ChannelView>> {
    match v {
        JsonView::Array(a) => read_all(a, |x: JsonView| channel(x)),
        _ => None,
    }
}

pub fn decode_channels(v: &Json) -> (r: Option<Vec<Channel>>)
    ensures
        r.deep_view() == channel_list(v.deep_view()),
{
    match v {
        Json::Array(a) => {
            proof {
                crate::json::array_tree(*a);
            }
            let ghost f = |x: JsonView| channel(x);
            let ghost all = a.deep_view();
            let mut out: Vec<Channel> = Vec::new();
            let mut i: usize = 0;
            while i < a.len()
                invariant
                    i <= a@.len(),
                    all == a.deep_view(),
                    f == (|x: JsonView| channel(x)),
                    v.deep_view() == JsonView::Array(all),
                    out@.len() == i,
                    forall|j: int|
                        0 <= j < i ==> (#[trigger] f(all[j])) == Some(out@[j].deep_view()),
                decreases a@.len() - i,
            {
                assert(all[i as int] == a@[i as int].deep_view());
                match Channel::decode(&a[i]) {
                    Some(x) => {
                        out.push(x);
                    },
                    None => {
                        assert(f(all[i as int]) is None);
                        return None;
                    },
                }
                i = i + 1;
            }
            assert(out.deep_view() =~= read_all(all, f)->Some_0);
            Some(out)
        },
        _ => None,
    }
}

/// Main agent reported by `status` or `models.authStatus`.
#[derive(Debug, PartialEq)]
pub struct MainAgent {
    pub id: String,
    pub model: Option<String>,
    /// `"idle"`, `"running"`, `"error"`, kept raw.
    pub state: Option<String>,
}

/// What [`MainAgent`] holds, as mathematical values.
#[verifier::ext_equal]
pub struct MainAgentView {
    pub id: Seq<char>,
    pub model: Option<Seq<char>>,
    pub state: Option<Seq<char>>,
}

impl DeepView for MainAgent {
    type V = MainAgentView;

    open spec fn deep_view(&self) -> MainAgentView {
        MainAgentView {
            id: self.id.deep_view(),
            model: self.model.deep_view(),
            state: self.state.deep_view(),
        }
    }
}

impl Clone for MainAgent {
    fn clone(&self) -> (r: MainAgent)
        ensures
            r.deep_view() == self.deep_view(),
    {
        MainAgent {
            id: self.id.clone(),
            model: self.model.clone(),
            state: self.state.clone(),
        }
    }
}

/// Reads [`MainAgent`] from a value; `None` when the value has another shape.
pub open spec fn main_agent(v: JsonView) -> Option<MainAgentView> {
    if !is_record(v, 3) {
        None
    } else {
        let id = required_text(v, "id"@, 0);
        let model = optional_text(v, "model"@, 1, false);
        let state = optional_text(v, "state"@, 2, false);
        if id is Some && model is Some && state is Some {
            Some(
                MainAgentView {
                    id: id->Some_0,
                    model: model->Some_0,
                    state: state->Some_0,
                },
            )
        } else {
            None
        }
    }
}

impl MainAgent {
    pub fn decode(v: &Json) -> (r: Option<MainAgent>)
        ensures
            r.deep_view() == main_agent(v.deep_view()),
    {
        if !record_shape(v, 3) {
            return None;
        }
        let id: String = get_text(v, "id", 0)?;
        let model: Option<String> = get_optional_text(v, "model", 1, false)?;
        let state: Option<String> = get_optional_text(v, "state", 2, false)?;
        Some(MainAgent { id, model, state })
    }
}

/// Model reference of an agent: the server returns `{primary, fallbacks}`.
#[derive(Debug, PartialEq)]
pub struct AgentModelRef {
    pub primary: Option<String>,
    pub fallbacks: Option<Vec<String>>,
}

/// What [`AgentModelRef`] holds, as mathematical values.
#[verifier::ext_equal]
pub struct AgentModelRefView {
    pub primary: Option<Seq<char>>,
    pub fallbacks: Option<Seq<Seq<char>>>,
}

impl DeepView for AgentModelRef {
    type V = AgentModelRefView;

    open spec fn deep_view(&self) -> AgentModelRefView {
        AgentModelRefView {
            primary: self.primary.deep_view(),
            fallbacks: self.fallbacks.deep_view(),
        }
    }
}

impl Clone for AgentModelRef {
    fn clone(&self) -> (r: AgentModelRef)
        ensures
            r.deep_view() == self.deep_view(),
    {
        let r = AgentModelRef {
            primary: self.primary.clone(),
            fallbacks: self.fallbacks.clone(),
        };
        assert(r.fallbacks.deep_view() =~= self.fallbacks.deep_view());
        r
    }
}

/// Reads [`AgentModelRef`] from a value; `None` when the value has another shape.
pub open spec fn agent_model_ref(v: JsonView) -> Option<AgentModelRefView> {
    if !is_record(v, 2) {
        None
    } else {
        let primary = optional_text(v, "primary"@, 0, true);
        let fallbacks = match slot(v, "fallbacks"@, 1) {
            None => Some(None),
            Some(JsonView::Null) => Some(None),
            Some(l) => match text_list(l) {
                Some(ts) => Some(Some(ts)),
                None => None,
            },
        };
        if primary is Some && fallbacks is Some {
            Some(
                AgentModelRefView {
                    primary: primary->Some_0,
                    fallbacks: fallbacks->Some_0,
                },
            )
        } else {
            None
        }
    }
}

impl AgentModelRef {
    pub fn decode(v: &Json) -> (r: Option<AgentModelRef>)
        ensures
            r.deep_view() == agent_model_ref(v.deep_view()),
    {
        if !record_shape(v, 2) {
            return None;
        }
        let primary: Option<String> = get_optional_text(v, "primary", 0, true)?;
        let fallbacks: Option<Vec<String>> = match get_slot(v, "fallbacks", 1) {
            None => None,
            Some(Json::Null) => None,
            Some(l) => Some(get_text_list(l)?),
        };
        Some(AgentModelRef { primary, fallbacks })
    }
}

/// Operator-chosen persona of an agent.
#[derive(Debug, PartialEq)]
pub struct AgentIdentity {
    pub name: Option<String>,
    pub emoji: Option<String>,
    pub avatar: Option<String>,
    pub theme: Option<String>,
}

/// What [`AgentIdentity`] holds, as mathematical values.
#[verifier::ext_equal]
pub struct AgentIdentityView {
    pub name: Option<Seq<char>>,
    pub emoji: Option<Seq<char>>,
    pub avatar: Option<Seq<char>>,
    pub theme: Option<Seq<char>>,
}

impl DeepView for AgentIdentity {
    type V = AgentIdentityView;

    open spec fn deep_view(&self) -> AgentIdentityView {
        AgentIdentityView {
            name: self.name.deep_view(),
            emoji: self.emoji.deep_view(),
            avatar: self.avatar.deep_view(),
            theme: self.theme.deep_view(),
        }
    }
}

impl Clone for AgentIdentity {
    fn clone(&self) -> (r: AgentIdentity)
        ensures
            r.deep_view() == self.deep_view(),
    {
        AgentIdentity {
            name: self.name.clone(),
            emoji: self.emoji.clone(),
            avatar: self.avatar.clone(),
            theme: self.theme.clone(),
        }
    }
}

/// Reads [`AgentIdentity`] from a value; `None` when the value has another shape.
pub open spec fn agent_identity(v: JsonView) -> Option<AgentIdentityView> {
    if !is_record(v, 4) {
        None
    } else {
        let name = optional_text(v, "name"@, 0, true);
        let emoji = optional_text(v, "emoji"@, 1, true);
        let avatar = optional_text(v, "avatar"@, 2, true);
        let theme = optional_text(v, "theme"@, 3, true);
        if name is Some && emoji is Some && avatar is Some && theme is Some {
            Some(
                AgentIdentityView {
                    name: name->Some_0,
                    emoji: emoji->Some_0,
                    avatar: avatar->Some_0,
                    theme: theme->Some_0,
                },
            )
        } else {
            None
        }
    }
}

impl AgentIdentity {
    pub fn decode(v: &Json) -> (r: Option<AgentIdentity>)
        ensures
            r.deep_view() == agent_identity(v.deep_view()),
    {
        if !record_shape(v, 4) {
            return None;
        }
        let name: Option<String> = get_optional_text(v, "name", 0, true)?;
        let emoji: Option<String> = get_optional_text(v, "emoji", 1, true)?;
        let avatar: Option<String> = get_optional_text(v, "avatar", 2, true)?;
        let theme: Option<String> = get_optional_text(v, "theme", 3, true)?;
        Some(AgentIdentity { name, emoji, avatar, theme })
    }
}

/// One row in the `agents.list` response: stable id, operator-facing name and
/// emoji from the nested `identity` object, and the model if configured.
#[derive(Debug, PartialEq)]
pub struct AgentInfo {
    pub id: String,
    pub name: Option<String>,
    pub identity: Option<AgentIdentity>,
    pub model: Option<AgentModelRef>,
    pub workspace: Option<String>,
}

/// What [`AgentInfo`] holds, as mathematical values.
#[verifier::ext_equal]
pub struct AgentInfoView {
    pub id: Seq<char>,
    pub name: Option<Seq<char>>,
    pub identity: Option<AgentIdentityView>,
    pub model: Option<AgentModelRefView>,
    pub workspace: Option<Seq<char>>,
}

impl DeepView for AgentInfo {
    type V = AgentInfoView;

    open spec fn deep_view(&self) -> AgentInfoView {
        AgentInfoView {
            id: self.id.deep_view(),
            name: self.name.deep_view(),
            identity: self.identity.deep_view(),
            model: self.model.deep_view(),
            workspace: self.workspace.deep_view(),
        }
    }
}

impl Clone for AgentInfo {
    fn clone(&self) -> (r: AgentInfo)
        ensures
            r.deep_view() == self.deep_view(),
    {
        AgentInfo {
            id: self.id.clone(),
            name: self.name.clone(),
            identity: self.identity.clone(),
            model: self.model.clone(),
            workspace: self.workspace.clone(),
        }
    }
}

/// Reads [`AgentInfo`] from a value; `None` when the value has another shape.
pub open spec fn agent_info(v: JsonView) -> Option<AgentInfoView> {
    if !is_record(v, 5) {
        None
    } else {
        let id = required_text(v, "id"@, 0);
        let name = optional_text(v, "name"@, 1, true);
        let identity = match slot(v, "identity"@, 2) {
            None => Some(None),
            Some(JsonView::Null) => Some(None),
            Some(x) => match agent_identity(x) {
                Some(y) => Some(Some(y)),
                None => None,
            },
        };
        let model = match slot(v, "model"@, 3) {
            None => Some(None),
            Some(JsonView::Null) => Some(None),
            Some(x) => match agent_model_ref(x) {
                Some(y) => Some(Some(y)),
                None => None,
            },
        };
        let workspace = optional_text(v, "workspace"@, 4, true);
        if id is Some && name is Some && identity is Some && model is Some && workspace is Some {
            Some(
                AgentInfoView {
                    id: id->Some_0,
                    name: name->Some_0,
                    identity: identity->Some_0,
                    model: model->Some_0,
                    workspace: workspace->Some_0,
                },
            )
        } else {
            None
        }
    }
}

impl AgentInfo {
    pub fn decode(v: &Json) -> (r: Option<AgentInfo>)
        ensures
            r.deep_view() == agent_info(v.deep_view()),
    {
        if !record_shape(v, 5) {
            return None;
        }
        let id: String = get_text(v, "id", 0)?;
        let name: Option<String> = get_optional_text(v, "name", 1, true)?;
        let identity: Option<AgentIdentity> = match get_slot(v, "identity", 2) {
            None => None,
            Some(Json::Null) => None,
            Some(x) => Some(AgentIdentity::decode(x)?),
        };
        let model: Option<AgentModelRef> = match get_slot(v, "model", 3) {
            None => None,
            Some(Json::Null) => None,
            Some(x) => Some(AgentModelRef::decode(x)?),
        };
        let workspace: Option<String> = get_optional_text(v, "workspace", 4, true)?;
        Some(AgentInfo { id, name, identity, model, workspace })
    }
}

/// A list of [`AgentInfo`].
pub open spec fn agent_info_list(v: JsonView) -> Option<Seq<AgentInfoView>> {
    match v {
        JsonView::Array(a) => read_all(a, |x: JsonView| agent_info(x)),
        _ => None,
    }
}

pub fn decode_agent_infos(v: &Json) -> (r: Option<Vec<AgentInfo>>)
    ensures
        r.deep_view() == agent_info_list(v.deep_view()),
{
    match v {
        Json::Array(a) => {
            proof {
                crate::json::array_tree(*a);
            }
            let ghost f = |x: JsonView| agent_info(x);
            let ghost all = a.deep_view();
            let mut out: Vec<AgentInfo> = Vec::new();
            let mut i: usize = 0;
            while i < a.len()
                invariant
                    i <= a@.len(),
                    all == a.deep_view(),
                    f == (|x: JsonView| agent_info(x)),
                    v.deep_view() == JsonView::Array(all),
                    out@.len() == i,
                    forall|j: int|
                        0 <= j < i ==> (#[trigger] f(all[j])) == Some(out@[j].deep_view()),
                decreases a@.len() - i,
            {
                assert(all[i as int] == a@[i as int].deep_view());
                match AgentInfo::decode(&a[i]) {
                    Some(x) => {
                        out.push(x);
                    },
                    None => {
                        assert(f(all[i as int]) is None);
                        return None;
                    },
                }
                i = i + 1;
            }
            assert(out.deep_view() =~= read_all(all, f)->Some_0);
            Some(out)
        },
        _ => None,
    }
}

impl AgentInfoView {
    /// `identity.name`, else `name`, else the id.
    pub open spec fn shown_name(self) -> Seq<char> {
        match self.identity {
            Some(AgentIdentityView { name: Some(n), .. }) => n,
            _ => match self.name {
                Some(n) => n,
                None => self.id,
            },
        }
    }

    /// The shown name, with the persona's emoji behind it when it has one.
    pub open spec fn shown_with_emoji(self) -> Seq<char> {
        match self.identity {
            Some(AgentIdentityView { emoji: Some(e), .. }) => if e.len() == 0 {
                self.shown_name()
            } else {
                self.shown_name() + " "@ + e
            },
            _ => self.shown_name(),
        }
    }
}

impl AgentInfo {
    /// Display name picked from the richest source available.
    pub fn display_name(&self) -> (r: &str)
        ensures
            r@ == self.deep_view().shown_name(),
    {
        if let Some(identity) = &self.identity {
            if let Some(n) = &identity.name {
                return n.as_str();
            }
        }
        match &self.name {
            Some(n) => n.as_str(),
            None => self.id.as_str(),
        }
    }

    /// Full display string, with the persona emoji when present.
    pub fn display_with_emoji(&self) -> (r: String)
        ensures
            r@ == self.deep_view().shown_with_emoji(),
    {
        let name = self.display_name();
        if let Some(identity) = &self.identity {
            if let Some(e) = &identity.emoji {
                if !e.as_str().is_empty() {
                    return cat3(name, " ", e.as_str());
                }
            }
        }
        name.to_owned()
    }

    /// Primary model, or `None` if none is configured.
    pub fn primary_model(&self) -> (r: Option<&str>)
        ensures
            r.deep_view() == (match self.deep_view().model {
                Some(m) => m.primary,
                None => None,
            }),
    {
        match &self.model {
            Some(m) => match &m.primary {
                Some(p) => Some(p.as_str()),
                None => None,
            },
            None => None,
        }
    }
}

/// Full `agents.list` response. `default_id` is the agent to select first.
#[derive(Debug, PartialEq)]
pub struct AgentsListResponse {
    pub default_id: String,
    pub agents: Vec<AgentInfo>,
}

/// What [`AgentsListResponse`] holds, as mathematical values.
#[verifier::ext_equal]
pub struct AgentsListResponseView {
    pub default_id: Seq<char>,
    pub agents: Seq<AgentInfoView>,
}

impl DeepView for AgentsListResponse {
    type V = AgentsListResponseView;

    open spec fn deep_view(&self) -> AgentsListResponseView {
        AgentsListResponseView {
            default_id: self.default_id.deep_view(),
            agents: self.agents.deep_view(),
        }
    }
}

impl Clone for AgentsListResponse {
    fn clone(&self) -> (r: AgentsListResponse)
        ensures
            r.deep_view() == self.deep_view(),
    {
        let r = AgentsListResponse {
            default_id: self.default_id.clone(),
            agents: self.agents.clone(),
        };
        assert(r.agents.deep_view() =~= self.agents.deep_view());
        r
    }
}

/// Reads [`AgentsListResponse`] from a value; `None` when the value has another shape.
pub open spec fn agents_list_response(v: JsonView) -> Option<AgentsListResponseView> {
    if !is_record(v, 2) {
        None
    } else {
        let default_id = required_text(v, "defaultId"@, 0);
        let agents = match slot(v, "agents"@, 1) {
            None => Some(Seq::empty()),
            Some(l) => agent_info_list(l),
        };
        if default_id is Some && agents is Some {
            Some(
                AgentsListResponseView {
                    default_id: default_id->Some_0,
                    agents: agents->Some_0,
                },
            )
        } else {
            None
        }
    }
}

impl AgentsListResponse {
    pub fn decode(v: &Json) -> (r: Option<AgentsListResponse>)
        ensures
            r.deep_view() == agents_list_response(v.deep_view()),
    {
        if !record_shape(v, 2) {
            return None;
        }
        let default_id: String = get_text(v, "defaultId", 0)?;
        let agents: Vec<AgentInfo> = match get_slot(v, "agents", 1) {
            None => Vec::new(),
            Some(l) => decode_agent_infos(l)?,
        };
        Some(AgentsListResponse { default_id, agents })
    }

    /// Reads it from JSON text.
    pub fn from_text(text: &str) -> (r: Option<AgentsListResponse>)
        ensures
            r.deep_view() == (match parsed(text@) {
                Ok(v) => agents_list_response(v),
                Err(_) => None,
            }),
    {
        match parse(text) {
            Ok(v) => AgentsListResponse::decode(&v),
            Err(_) => None,
        }
    }
}

/// Gateway broadcast `cron` event.
#[derive(Debug, PartialEq)]
pub struct CronEventPayload {
    /// Stable cron identifier (UUID).
    pub job_id: String,
    /// Human-readable cron name, not always present.
    pub job_name: Option<String>,
    /// `"added" | "updated" | "removed" | "started" | "finished"`.
    pub action: String,
    pub run_at_ms: Option<i64>,
    pub duration_ms: Option<i64>,
    /// Present when finished: `"ok"`, `"error"`, `"failed"`, `"timeout"`, etc.
    pub status: Option<String>,
    pub error: Option<String>,
    pub next_run_at_ms: Option<i64>,
}

/// What [`CronEventPayload`] holds, as mathematical values.
#[verifier::ext_equal]
pub struct CronEventPayloadView {
    pub job_id: Seq<char>,
    pub job_name: Option<Seq<char>>,
    pub action: Seq<char>,
    pub run_at_ms: Option<i64>,
    pub duration_ms: Option<i64>,
    pub status: Option<Seq<char>>,
    pub error: Option<Seq<char>>,
    pub next_run_at_ms: Option<i64>,
}

impl DeepView for CronEventPayload {
    type V = CronEventPayloadView;

    open spec fn deep_view(&self) -> CronEventPayloadView {
        CronEventPayloadView {
            job_id: self.job_id.deep_view(),
            job_name: self.job_name.deep_view(),
            action: self.action.deep_view(),
            run_at_ms: self.run_at_ms.deep_view(),
            duration_ms: self.duration_ms.deep_view(),
            status: self.status.deep_view(),
            error: self.error.deep_view(),
            next_run_at_ms: self.next_run_at_ms.deep_view(),
        }
    }
}

impl Clone for CronEventPayload {
    fn clone(&self) -> (r: CronEventPayload)
        ensures
            r.deep_view() == self.deep_view(),
    {
        CronEventPayload {
            job_id: self.job_id.clone(),
            job_name: self.job_name.clone(),
            action: self.action.clone(),
            run_at_ms: self.run_at_ms.clone(),
            duration_ms: self.duration_ms.clone(),
            status: self.status.clone(),
            error: self.error.clone(),
            next_run_at_ms: self.next_run_at_ms.clone(),
        }
    }
}

/// Reads [`CronEventPayload`] from a value; `None` when the value has another shape.
pub open spec fn cron_event_payload(v: JsonView) -> Option<CronEventPayloadView> {
    if !is_record(v, 8) {
        None
    } else {
        let job_id = required_text(v, "jobId"@, 0);
        let job_name = optional_text(v, "jobName"@, 1, true);
        let action = required_text(v, "action"@, 2);
        let run_at_ms = optional_int(v, "runAtMs"@, 3, true);
        let duration_ms = optional_int(v, "durationMs"@, 4, true);
        let status = optional_text(v, "status"@, 5, true);
        let error = optional_text(v, "error"@, 6, true);
        let next_run_at_ms = optional_int(v, "nextRunAtMs"@, 7, true);
        if job_id is Some && job_name is Some && action is Some && run_at_ms is Some && duration_ms is Some && status is Some && error is Some && next_run_at_ms is Some {
            Some(
                CronEventPayloadView {
                    job_id: job_id->Some_0,
                    job_name: job_name->Some_0,
                    action: action->Some_0,
                    run_at_ms: run_at_ms->Some_0,
                    duration_ms: duration_ms->Some_0,
                    status: status->Some_0,
                    error: error->Some_0,
                    next_run_at_ms: next_run_at_ms->Some_0,
                },
            )
        } else {
            None
        }
    }
}

impl CronEventPayload {
    pub fn decode(v: &Json) -> (r: Option<CronEventPayload>)
        ensures
            r.deep_view() == cron_event_payload(v.deep_view()),
    {
        if !record_shape(v, 8) {
            return None;
        }
        let job_id: String = get_text(v, "jobId", 0)?;
        let job_name: Option<String> = get_optional_text(v, "jobName", 1, true)?;
        let action: String = get_text(v, "action", 2)?;
        let run_at_ms: Option<i64> = get_optional_int(v, "runAtMs", 3, true)?;
        let duration_ms: Option<i64> = get_optional_int(v, "durationMs", 4, true)?;
        let status: Option<String> = get_optional_text(v, "status", 5, true)?;
        let error: Option<String> = get_optional_text(v, "error", 6, true)?;
        let next_run_at_ms: Option<i64> = get_optional_int(v, "nextRunAtMs", 7, true)?;
        Some(CronEventPayload { job_id, job_name, action, run_at_ms, duration_ms, status, error, next_run_at_ms })
    }

    /// Reads it from JSON text.
    pub fn from_text(text: &str) -> (r: Option<CronEventPayload>)
        ensures
            r.deep_view() == (match parsed(text@) {
                Ok(v) => cron_event_payload(v),
                Err(_) => None,
            }),
    {
        match parse(text) {
            Ok(v) => CronEventPayload::decode(&v),
            Err(_) => None,
        }
    }
}

/// The session key: `key` or `sessionKey` in an object, but not both, and the
/// first element of an array.
pub open spec fn session_key_member(v: JsonView) -> Option<Seq<char>> {
    match (slot(v, "key"@, 0), v.field("sessionKey"@)) {
        (Some(JsonView::Str(s)), None) => Some(s),
        (None, Some(JsonView::Str(s))) => Some(s),
        _ => None,
    }
}

fn get_session_key(v: &Json) -> (r: Option<String>)
    ensures
        r.deep_view() == session_key_member(v.deep_view()),
{
    match (get_slot(v, "key", 0), v.get("sessionKey")) {
        (Some(Json::Str(s)), None) => Some(s.clone()),
        (None, Some(Json::Str(s))) => Some(s.clone()),
        _ => None,
    }
}

/// One entry in the `sessions.list` response, also embedded in the payloads of
/// `session.message`, which call the key `sessionKey`.
#[derive(Debug, PartialEq)]
pub struct SessionInfo {
    pub key: String,
    pub total_tokens: Option<i64>,
    pub context_tokens: Option<i64>,
    pub input_tokens: Option<i64>,
    pub output_tokens: Option<i64>,
    pub updated_at_ms: Option<i64>,
    pub age_ms: Option<i64>,
    pub model: Option<String>,
    pub kind: Option<String>,
    pub thinking_level: Option<String>,
    pub agent_id: Option<String>,
}

/// What [`SessionInfo`] holds, as mathematical values.
#[verifier::ext_equal]
pub struct SessionInfoView {
    pub key: Seq<char>,
    pub total_tokens: Option<i64>,
    pub context_tokens: Option<i64>,
    pub input_tokens: Option<i64>,
    pub output_tokens: Option<i64>,
    pub updated_at_ms: Option<i64>,
    pub age_ms: Option<i64>,
    pub model: Option<Seq<char>>,
    pub kind: Option<Seq<char>>,
    pub thinking_level: Option<Seq<char>>,
    pub agent_id: Option<Seq<char>>,
}

impl DeepView for SessionInfo {
    type V = SessionInfoView;

    open spec fn deep_view(&self) -> SessionInfoView {
        SessionInfoView {
            key: self.key.deep_view(),
            total_tokens: self.total_tokens.deep_view(),
            context_tokens: self.context_tokens.deep_view(),
            input_tokens: self.input_tokens.deep_view(),
            output_tokens: self.output_tokens.deep_view(),
            updated_at_ms: self.updated_at_ms.deep_view(),
            age_ms: self.age_ms.deep_view(),
            model: self.model.deep_view(),
            kind: self.kind.deep_view(),
            thinking_level: self.thinking_level.deep_view(),
            agent_id: self.agent_id.deep_view(),
        }
    }
}

impl Clone for SessionInfo {
    fn clone(&self) -> (r: SessionInfo)
        ensures
            r.deep_view() == self.deep_view(),
    {
        SessionInfo {
            key: self.key.clone(),
            total_tokens: self.total_tokens.clone(),
            context_tokens: self.context_tokens.clone(),
            input_tokens: self.input_tokens.clone(),
            output_tokens: self.output_tokens.clone(),
            updated_at_ms: self.updated_at_ms.clone(),
            age_ms: self.age_ms.clone(),
            model: self.model.clone(),
            kind: self.kind.clone(),
            thinking_level: self.thinking_level.clone(),
            agent_id: self.agent_id.clone(),
        }
    }
}

/// Reads [`SessionInfo`] from a value; `None` when the value has another shape.
pub open spec fn session_info(v: JsonView) -> Option<SessionInfoView> {
    if !is_record(v, 11) {
        None
    } else {
        let key = session_key_member(v);
        let total_tokens = optional_int(v, "totalTokens"@, 1, true);
        let context_tokens = optional_int(v, "contextTokens"@, 2, true);
        let input_tokens = optional_int(v, "inputTokens"@, 3, true);
        let output_tokens = optional_int(v, "outputTokens"@, 4, true);
        let updated_at_ms = optional_int(v, "updatedAt"@, 5, true);
        let age_ms = optional_int(v, "ageMs"@, 6, true);
        let model = optional_text(v, "model"@, 7, true);
        let kind = optional_text(v, "kind"@, 8, true);
        let thinking_level = optional_text(v, "thinkingLevel"@, 9, true);
        let agent_id = optional_text(v, "agentId"@, 10, true);
        if key is Some && total_tokens is Some && context_tokens is Some && input_tokens is Some && output_tokens is Some && updated_at_ms is Some && age_ms is Some && model is Some && kind is Some && thinking_level is Some && agent_id is Some {
            Some(
                SessionInfoView {
                    key: key->Some_0,
                    total_tokens: total_tokens->Some_0,
                    context_tokens: context_tokens->Some_0,
                    input_tokens: input_tokens->Some_0,
                    output_tokens: output_tokens->Some_0,
                    updated_at_ms: updated_at_ms->Some_0,
                    age_ms: age_ms->Some_0,
                    model: model->Some_0,
                    kind: kind->Some_0,
                    thinking_level: thinking_level->Some_0,
                    agent_id: agent_id->Some_0,
                },
            )
        } else {
            None
        }
    }
}

impl SessionInfo {
    pub fn decode(v: &Json) -> (r: Option<SessionInfo>)
        ensures
            r.deep_view() == session_info(v.deep_view()),
    {
        if !record_shape(v, 11) {
            return None;
        }
        let key: String = get_session_key(v)?;
        let total_tokens: Option<i64> = get_optional_int(v, "totalTokens", 1, true)?;
        let context_tokens: Option<i64> = get_optional_int(v, "contextTokens", 2, true)?;
        let input_tokens: Option<i64> = get_optional_int(v, "inputTokens", 3, true)?;
        let output_tokens: Option<i64> = get_optional_int(v, "outputTokens", 4, true)?;
        let updated_at_ms: Option<i64> = get_optional_int(v, "updatedAt", 5, true)?;
        let age_ms: Option<i64> = get_optional_int(v, "ageMs", 6, true)?;
        let model: Option<String> = get_optional_text(v, "model", 7, true)?;
        let kind: Option<String> = get_optional_text(v, "kind", 8, true)?;
        let thinking_level: Option<String> = get_optional_text(v, "thinkingLevel", 9, true)?;
        let agent_id: Option<String> = get_optional_text(v, "agentId", 10, true)?;
        Some(SessionInfo { key, total_tokens, context_tokens, input_tokens, output_tokens, updated_at_ms, age_ms, model, kind, thinking_level, agent_id })
    }
}

/// A single point in a session's token-usage time series. The two costs are held
/// by the text of their numbers.
#[derive(Debug, PartialEq)]
pub struct SessionUsagePoint {
    pub timestamp: i64,
    pub input: i64,
    pub output: i64,
    pub cache_read: i64,
    pub cache_write: i64,
    pub total_tokens: i64,
    pub cumulative_tokens: i64,
    pub cost: String,
    pub cumulative_cost: String,
}

/// What [`SessionUsagePoint`] holds, as mathematical values.
#[verifier::ext_equal]
pub struct SessionUsagePointView {
    pub timestamp: i64,
    pub input: i64,
    pub output: i64,
    pub cache_read: i64,
    pub cache_write: i64,
    pub total_tokens: i64,
    pub cumulative_tokens: i64,
    pub cost: Seq<char>,
    pub cumulative_cost: Seq<char>,
}

impl DeepView for SessionUsagePoint {
    type V = SessionUsagePointView;

    open spec fn deep_view(&self) -> SessionUsagePointView {
        SessionUsagePointView {
            timestamp: self.timestamp.deep_view(),
            input: self.input.deep_view(),
            output: self.output.deep_view(),
            cache_read: self.cache_read.deep_view(),
            cache_write: self.cache_write.deep_view(),
            total_tokens: self.total_tokens.deep_view(),
            cumulative_tokens: self.cumulative_tokens.deep_view(),
            cost: self.cost.deep_view(),
            cumulative_cost: self.cumulative_cost.deep_view(),
        }
    }
}

impl Clone for SessionUsagePoint {
    fn clone(&self) -> (r: SessionUsagePoint)
        ensures
            r.deep_view() == self.deep_view(),
    {
        SessionUsagePoint {
            timestamp: self.timestamp,
            input: self.input,
            output: self.output,
            cache_read: self.cache_read,
            cache_write: self.cache_write,
            total_tokens: self.total_tokens,
            cumulative_tokens: self.cumulative_tokens,
            cost: self.cost.clone(),
            cumulative_cost: self.cumulative_cost.clone(),
        }
    }
}

/// Reads [`SessionUsagePoint`] from a value; `None` when the value has another shape.
pub open spec fn session_usage_point(v: JsonView) -> Option<SessionUsagePointView> {
    if !is_record(v, 9) {
        None
    } else {
        let timestamp = int_or_zero(v, "timestamp"@, 0);
        let input = int_or_zero(v, "input"@, 1);
        let output = int_or_zero(v, "output"@, 2);
        let cache_read = int_or_zero(v, "cacheRead"@, 3);
        let cache_write = int_or_zero(v, "cacheWrite"@, 4);
        let total_tokens = int_or_zero(v, "totalTokens"@, 5);
        let cumulative_tokens = int_or_zero(v, "cumulativeTokens"@, 6);
        let cost = number_or_zero(v, "cost"@, 7);
        let cumulative_cost = number_or_zero(v, "cumulativeCost"@, 8);
        if timestamp is Some && input is Some && output is Some && cache_read is Some && cache_write is Some && total_tokens is Some && cumulative_tokens is Some && cost is Some && cumulative_cost is Some {
            Some(
                SessionUsagePointView {
                    timestamp: timestamp->Some_0,
                    input: input->Some_0,
                    output: output->Some_0,
                    cache_read: cache_read->Some_0,
                    cache_write: cache_write->Some_0,
                    total_tokens: total_tokens->Some_0,
                    cumulative_tokens: cumulative_tokens->Some_0,
                    cost: cost->Some_0,
                    cumulative_cost: cumulative_cost->Some_0,
                },
            )
        } else {
            None
        }
    }
}

impl SessionUsagePoint {
    pub fn decode(v: &Json) -> (r: Option<SessionUsagePoint>)
        ensures
            r.deep_view() == session_usage_point(v.deep_view()),
    {
        if !record_shape(v, 9) {
            return None;
        }
        let timestamp: i64 = get_int(v, "timestamp", 0)?;
        let input: i64 = get_int(v, "input", 1)?;
        let output: i64 = get_int(v, "output", 2)?;
        let cache_read: i64 = get_int(v, "cacheRead", 3)?;
        let cache_write: i64 = get_int(v, "cacheWrite", 4)?;
        let total_tokens: i64 = get_int(v, "totalTokens", 5)?;
        let cumulative_tokens: i64 = get_int(v, "cumulativeTokens", 6)?;
        let cost: String = get_number(v, "cost", 7)?;
        let cumulative_cost: String = get_number(v, "cumulativeCost", 8)?;
        Some(SessionUsagePoint { timestamp, input, output, cache_read, cache_write, total_tokens, cumulative_tokens, cost, cumulative_cost })
    }
}

/// A list of [`SessionUsagePoint`].
pub open spec fn session_usage_point_list(v: JsonView) -> Option<Seq<SessionUsagePointView>> {
    match v {
        JsonView::Array(a) => read_all(a, |x: JsonView| session_usage_point(x)),
        _ => None,
    }
}

pub fn decode_session_usage_points(v: &Json) -> (r: Option<Vec<SessionUsagePoint>>)
    ensures
        r.deep_view() == session_usage_point_list(v.deep_view()),
{
    match v {
        Json::Array(a) => {
            proof {
                crate::json::array_tree(*a);
            }
            let ghost f = |x: JsonView| session_usage_point(x);
            let ghost all = a.deep_view();
            let mut out: Vec<SessionUsagePoint> = Vec::new();
            let mut i: usize = 0;
            while i < a.len()
                invariant
                    i <= a@.len(),
                    all == a.deep_view(),
                    f == (|x: JsonView| session_usage_point(x)),
                    v.deep_view() == JsonView::Array(all),
                    out@.len() == i,
                    forall|j: int|
                        0 <= j < i ==> (#[trigger] f(all[j])) == Some(out@[j].deep_view()),
                decreases a@.len() - i,
            {
                assert(all[i as int] == a@[i as int].deep_view());
                match SessionUsagePoint::decode(&a[i]) {
                    Some(x) => {
                        out.push(x);
                    },
                    None => {
                        assert(f(all[i as int]) is None);
                        return None;
                    },
                }
                i = i + 1;
            }
            assert(out.deep_view() =~= read_all(all, f)->Some_0);
            Some(out)
        },
        _ => None,
    }
}

/// Response payload for `sessions.usage.timeseries`.
#[derive(Debug, PartialEq)]
pub struct SessionUsageTimeseries {
    pub points: Vec<SessionUsagePoint>,
}

/// What [`SessionUsageTimeseries`] holds, as mathematical values.
#[verifier::ext_equal]
pub struct SessionUsageTimeseriesView {
    pub points: Seq<SessionUsagePointView>,
}

impl DeepView for SessionUsageTimeseries {
    type V = SessionUsageTimeseriesView;

    open spec fn deep_view(&self) -> SessionUsageTimeseriesView {
        SessionUsageTimeseriesView {
            points: self.points.deep_view(),
        }
    }
}

impl Clone for SessionUsageTimeseries {
    fn clone(&self) -> (r: SessionUsageTimeseries)
        ensures
            r.deep_view() == self.deep_view(),
    {
        let r = SessionUsageTimeseries {
            points: self.points.clone(),
        };
        assert(r.points.deep_view() =~= self.points.deep_view());
        r
    }
}

/// Reads [`SessionUsageTimeseries`] from a value; `None` when the value has another shape.
pub open spec fn session_usage_timeseries(v: JsonView) -> Option<SessionUsageTimeseriesView> {
    if !is_record(v, 1) {
        None
    } else {
        let points = match slot(v, "points"@, 0) {
            None => Some(Seq::empty()),
            Some(l) => session_usage_point_list(l),
        };
        if points is Some {
            Some(
                SessionUsageTimeseriesView {
                    points: points->Some_0,
                },
            )
        } else {
            None
        }
    }
}

impl SessionUsageTimeseries {
    pub fn decode(v: &Json) -> (r: Option<SessionUsageTimeseries>)
        ensures
            r.deep_view() == session_usage_timeseries(v.deep_view()),
    {
        if !record_shape(v, 1) {
            return None;
        }
        let points: Vec<SessionUsagePoint> = match get_slot(v, "points", 0) {
            None => Vec::new(),
            Some(l) => decode_session_usage_points(l)?,
        };
        Some(SessionUsageTimeseries { points })
    }
}

/// Response of the `logs.tail` call: a slice of the rolling log file. `reset`
/// means that the file rolled over and the previous cursor is no longer valid.
#[derive(Debug, PartialEq)]
pub struct LogTailPayload {
    pub cursor: i64,
    pub lines: Vec<String>,
    pub reset: bool,
}

/// What [`LogTailPayload`] holds, as mathematical values.
#[verifier::ext_equal]
pub struct LogTailPayloadView {
    pub cursor: i64,
    pub lines: Seq<Seq<char>>,
    pub reset: bool,
}

impl DeepView for LogTailPayload {
    type V = LogTailPayloadView;

    open spec fn deep_view(&self) -> LogTailPayloadView {
        LogTailPayloadView {
            cursor: self.cursor.deep_view(),
            lines: self.lines.deep_view(),
            reset: self.reset.deep_view(),
        }
    }
}

impl Clone for LogTailPayload {
    fn clone(&self) -> (r: LogTailPayload)
        ensures
            r.deep_view() == self.deep_view(),
    {
        let r = LogTailPayload {
            cursor: self.cursor,
            lines: self.lines.clone(),
            reset: self.reset,
        };
        assert(r.lines.deep_view() =~= self.lines.deep_view());
        r
    }
}

/// Reads [`LogTailPayload`] from a value; `None` when the value has another shape.
pub open spec fn log_tail_payload(v: JsonView) -> Option<LogTailPayloadView> {
    if !is_record(v, 3) {
        None
    } else {
        let cursor = int_or_zero(v, "cursor"@, 0);
        let lines = match slot(v, "lines"@, 1) {
            None => Some(Seq::empty()),
            Some(l) => text_list(l),
        };
        let reset = flag_or_false(v, "reset"@, 2);
        if cursor is Some && lines is Some && reset is Some {
            Some(
                LogTailPayloadView {
                    cursor: cursor->Some_0,
                    lines: lines->Some_0,
                    reset: reset->Some_0,
                },
            )
        } else {
            None
        }
    }
}

impl LogTailPayload {
    pub fn decode(v: &Json) -> (r: Option<LogTailPayload>)
        ensures
            r.deep_view() == log_tail_payload(v.deep_view()),
    {
        if !record_shape(v, 3) {
            return None;
        }
        let cursor: i64 = get_int(v, "cursor", 0)?;
        let lines: Vec<String> = match get_slot(v, "lines", 1) {
            None => Vec::new(),
            Some(l) => get_text_list(l)?,
        };
        let reset: bool = get_flag(v, "reset", 2)?;
        Some(LogTailPayload { cursor, lines, reset })
    }
}

/// Gateway broadcast `agent` event.
#[derive(Debug, PartialEq)]
pub struct AgentEventPayload {
    /// `"assistant" | "tool" | "item" | "error" | "lifecycle" | ...`.
    pub stream: String,
    /// `"agent:<id>:<sid>"`; some events omit it.
    pub session_key: Option<String>,
}

/// What [`AgentEventPayload`] holds, as mathematical values.
#[verifier::ext_equal]
pub struct AgentEventPayloadView {
    pub stream: Seq<char>,
    pub session_key: Option<Seq<char>>,
}

impl DeepView for AgentEventPayload {
    type V = AgentEventPayloadView;

    open spec fn deep_view(&self) -> AgentEventPayloadView {
        AgentEventPayloadView {
            stream: self.stream.deep_view(),
            session_key: self.session_key.deep_view(),
        }
    }
}

impl Clone for AgentEventPayload {
    fn clone(&self) -> (r: AgentEventPayload)
        ensures
            r.deep_view() == self.deep_view(),
    {
        AgentEventPayload {
            stream: self.stream.clone(),
            session_key: self.session_key.clone(),
        }
    }
}

/// Reads [`AgentEventPayload`] from a value; `None` when the value has another shape.
pub open spec fn agent_event_payload(v: JsonView) -> Option<AgentEventPayloadView> {
    if !is_record(v, 2) {
        None
    } else {
        let stream = required_text(v, "stream"@, 0);
        let session_key = optional_text(v, "sessionKey"@, 1, true);
        if stream is Some && session_key is Some {
            Some(
                AgentEventPayloadView {
                    stream: stream->Some_0,
                    session_key: session_key->Some_0,
                },
            )
        } else {
            None
        }
    }
}

impl AgentEventPayload {
    pub fn decode(v: &Json) -> (r: Option<AgentEventPayload>)
        ensures
            r.deep_view() == agent_event_payload(v.deep_view()),
    {
        if !record_shape(v, 2) {
            return None;
        }
        let stream: String = get_text(v, "stream", 0)?;
        let session_key: Option<String> = get_optional_text(v, "sessionKey", 1, true)?;
        Some(AgentEventPayload { stream, session_key })
    }

    /// Reads it from JSON text.
    pub fn from_text(text: &str) -> (r: Option<AgentEventPayload>)
        ensures
            r.deep_view() == (match parsed(text@) {
                Ok(v) => agent_event_payload(v),
                Err(_) => None,
            }),
    {
        match parse(text) {
            Ok(v) => AgentEventPayload::decode(&v),
            Err(_) => None,
        }
    }
}

/// Gateway broadcast `exec.approval.requested` payload.
#[derive(Debug, PartialEq)]
pub struct ApprovalEventPayload {
    pub id: Option<String>,
    pub session_key: Option<String>,
    pub tool: Option<String>,
    pub summary: Option<String>,
}

/// What [`ApprovalEventPayload`] holds, as mathematical values.
#[verifier::ext_equal]
pub struct ApprovalEventPayloadView {
    pub id: Option<Seq<char>>,
    pub session_key: Option<Seq<char>>,
    pub tool: Option<Seq<char>>,
    pub summary: Option<Seq<char>>,
}

impl DeepView for ApprovalEventPayload {
    type V = ApprovalEventPayloadView;

    open spec fn deep_view(&self) -> ApprovalEventPayloadView {
        ApprovalEventPayloadView {
            id: self.id.deep_view(),
            session_key: self.session_key.deep_view(),
            tool: self.tool.deep_view(),
            summary: self.summary.deep_view(),
        }
    }
}

impl Clone for ApprovalEventPayload {
    fn clone(&self) -> (r: ApprovalEventPayload)
        ensures
            r.deep_view() == self.deep_view(),
    {
        ApprovalEventPayload {
            id: self.id.clone(),
            session_key: self.session_key.clone(),
            tool: self.tool.clone(),
            summary: self.summary.clone(),
        }
    }
}

/// Reads [`ApprovalEventPayload`] from a value; `None` when the value has another shape.
pub open spec fn approval_event_payload(v: JsonView) -> Option<ApprovalEventPayloadView> {
    if !is_record(v, 4) {
        None
    } else {
        let id = optional_text(v, "id"@, 0, true);
        let session_key = optional_text(v, "sessionKey"@, 1, true);
        let tool = optional_text(v, "tool"@, 2, true);
        let summary = optional_text(v, "summary"@, 3, true);
        if id is Some && session_key is Some && tool is Some && summary is Some {
            Some(
                ApprovalEventPayloadView {
                    id: id->Some_0,
                    session_key: session_key->Some_0,
                    tool: tool->Some_0,
                    summary: summary->Some_0,
                },
            )
        } else {
            None
        }
    }
}

impl ApprovalEventPayload {
    pub fn decode(v: &Json) -> (r: Option<ApprovalEventPayload>)
        ensures
            r.deep_view() == approval_event_payload(v.deep_view()),
    {
        if !record_shape(v, 4) {
            return None;
        }
        let id: Option<String> = get_optional_text(v, "id", 0, true)?;
        let session_key: Option<String> = get_optional_text(v, "sessionKey", 1, true)?;
        let tool: Option<String> = get_optional_text(v, "tool", 2, true)?;
        let summary: Option<String> = get_optional_text(v, "summary", 3, true)?;
        Some(ApprovalEventPayload { id, session_key, tool, summary })
    }
}

} // verus!
