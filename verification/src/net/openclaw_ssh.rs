//! Reading the gateway's state files from afar, for diagnosing trouble with
//! the live connection.
use vstd::prelude::*;

use crate::config::{given, given_text};
use crate::json::{object_tree, parse_bytes, parsed_bytes, Json, JsonField, JsonView};
use crate::net::events::{WsEvent, WsEventView};
use crate::net::fields::{
    flag_or_false, get_flag, get_optional_text, get_slot, is_record, nested, optional_text,
    read_nested, record_shape, slot,
};
use crate::net::rpc::{
    cron_job_list, decode_cron_jobs, Channel, ChannelView, CronJob, CronJobView, MainAgent,
    MainAgentView,
};
use crate::seqs::{no_items, one_item, push_to};
use crate::text::{cat, cat3, i64_text, same, signed_decimal};

verus! {

/// The cron jobs' file, from the home directory.
pub const CRON_PATH: &'static str = ".openclaw/cron/jobs.json";

/// The configuration file, from the home directory.
pub const CONFIG_PATH: &'static str = ".openclaw/openclaw.json";

/// How often the cron jobs are read, in milliseconds.
pub const CRON_POLL_MS: u64 = 7_000;

/// How often the configuration is read, in milliseconds.
pub const CONFIG_POLL_MS: u64 = 30_000;

/// How long a read may take, in milliseconds.
pub const SSH_TIMEOUT_MS: u64 = 5_000;

/// Why a file could not be read.
#[derive(Debug, PartialEq)]
pub enum PollError {
    Timeout,
    Io(String),
    Parse(String),
    NonZero { code: Option<i32>, stderr: String },
}

/// What [`PollError`] holds, as mathematical values.
#[verifier::ext_equal]
pub enum PollErrorView {
    Timeout,
    Io(Seq<char>),
    Parse(Seq<char>),
    NonZero { code: Option<i32>, stderr: Seq<char> },
}

impl DeepView for PollError {
    type V = PollErrorView;

    open spec fn deep_view(&self) -> PollErrorView {
        match *self {
            PollError::Timeout => PollErrorView::Timeout,
            PollError::Io(a0) => PollErrorView::Io(a0.deep_view()),
            PollError::Parse(a0) => PollErrorView::Parse(a0.deep_view()),
            PollError::NonZero { code, stderr } => PollErrorView::NonZero {
                code: code.deep_view(),
                stderr: stderr.deep_view(),
            },
        }
    }
}

impl Clone for PollError {
    fn clone(&self) -> (r: PollError)
        ensures
            r.deep_view() == self.deep_view(),
    {
        match self {
            PollError::Timeout => PollError::Timeout,
            PollError::Io(a0) => PollError::Io(a0.clone()),
            PollError::Parse(a0) => PollError::Parse(a0.clone()),
            PollError::NonZero { code, stderr } => PollError::NonZero { code: code.clone(), stderr: stderr.clone() },
        }
    }
}

impl PollErrorView {
    /// The error in words.
    pub open spec fn told(self) -> Seq<char> {
        match self {
            PollErrorView::Timeout => "ssh timeout"@,
            PollErrorView::Io(e) => "spawn: "@ + e,
            PollErrorView::Parse(e) => "parse: "@ + e,
            PollErrorView::NonZero { code, stderr } => "command failed (code="@ + (match code {
                Some(n) => "Some("@ + signed_decimal(n as int) + ")"@,
                None => "None"@,
            }) + ("): "@ + stderr),
        }
    }
}

impl PollError {
    /// The error in words.
    pub fn message(&self) -> (r: String)
        ensures
            r@ == self.deep_view().told(),
    {
        match self {
            PollError::Timeout => "ssh timeout".to_owned(),
            PollError::Io(e) => cat("spawn: ", e.as_str()),
            PollError::Parse(e) => cat("parse: ", e.as_str()),
            PollError::NonZero { code, stderr } => {
                let shown = match code {
                    Some(n) => {
                        let digits = i64_text(*n as i64);
                        cat3("Some(", digits.as_str(), ")")
                    },
                    None => "None".to_owned(),
                };
                let tail = cat("): ", stderr.as_str());
                cat3("command failed (code=", shown.as_str(), tail.as_str())
            },
        }
    }
}

/// The host to read from, if one is given.
pub fn host(env: Option<&str>) -> (r: Option<String>)
    ensures
        r.deep_view() == given(env.deep_view()),
{
    given_text(env)
}

/// Whether the files are read in place of the live connection: only when that
/// is forced and a host is given.
pub fn uses_ssh(force: Option<&str>, host: Option<&str>) -> (r: bool)
    ensures
        r == (force.deep_view() == Some("1"@) && given(host.deep_view()) is Some),
{
    let forced = match force {
        Some(f) => same(f, "1"),
        None => false,
    };
    forced && given_text(host).is_some()
}

/// The jobs in the cron jobs' file; `None` when the file has another shape.
pub open spec fn jobs_in(v: JsonView) -> Option<Seq<CronJobView>> {
    if !is_record(v, 1) {
        None
    } else {
        match slot(v, "jobs"@, 0) {
            Some(l) => cron_job_list(l),
            None => Some(Seq::empty()),
        }
    }
}

/// Reads the cron jobs' file.
pub fn read_jobs(v: &Json) -> (r: Option<Vec<CronJob>>)
    ensures
        r.deep_view() == jobs_in(v.deep_view()),
{
    if !record_shape(v, 1) {
        return None;
    }
    match get_slot(v, "jobs", 0) {
        Some(l) => decode_cron_jobs(l),
        None => Some(no_items()),
    }
}

/// A provider's entry: only whether it is enabled. What is enabled is taken
/// to be connected, since the file does not tell.
pub open spec fn provider(f: (Seq<char>, JsonView)) -> Option<ChannelView> {
    if is_record(f.1, 1) {
        match flag_or_false(f.1, "enabled"@, 0) {
            Some(enabled) => Some(
                ChannelView { name: f.0, enabled, connected: enabled, last_error: None },
            ),
            None => None,
        }
    } else {
        None
    }
}

/// The providers of a channels block; `None` when one has another shape.
pub open spec fn providers_in(fs: Seq<(Seq<char>, JsonView)>) -> Option<Seq<ChannelView>> {
    if forall|i: int| 0 <= i < fs.len() ==> provider(#[trigger] fs[i]) is Some {
        Some(Seq::new(fs.len(), |i: int| provider(fs[i])->Some_0))
    } else {
        None
    }
}

/// The channels of the configuration.
pub open spec fn channels_in(v: JsonView) -> Option<Seq<ChannelView>> {
    match slot(v, "channels"@, 0) {
        None => Some(Seq::empty()),
        Some(JsonView::Null) => Some(Seq::empty()),
        Some(JsonView::Object(fs)) => providers_in(fs),
        _ => None,
    }
}

/// The primary model in `agents.defaults.model`.
pub open spec fn primary_in(v: JsonView) -> Option<Option<Seq<char>>> {
    match slot(v, "agents"@, 1) {
        None => Some(None),
        Some(JsonView::Null) => Some(None),
        Some(a) => match nested(a, "defaults"@) {
            None => None,
            Some(None) => Some(None),
            Some(Some(d)) => match nested(d, "model"@) {
                None => None,
                Some(None) => Some(None),
                Some(Some(m)) => if is_record(m, 1) {
                    optional_text(m, "primary"@, 0, true)
                } else {
                    None
                },
            },
        },
    }
}

/// The channels and the main agent of the configuration; `None` when the file
/// has another shape.
pub open spec fn config_in(v: JsonView) -> Option<(Seq<ChannelView>, Option<MainAgentView>)> {
    if !is_record(v, 2) || channels_in(v) is None || primary_in(v) is None {
        None
    } else {
        Some(
            (
                channels_in(v)->Some_0,
                match primary_in(v)->Some_0 {
                    Some(model) => Some(
                        MainAgentView { id: "main"@, model: Some(model), state: Some("idle"@) },
                    ),
                    None => None,
                },
            ),
        )
    }
}

fn read_providers(fs: &Vec<JsonField>) -> (r: Option<Vec<Channel>>)
    ensures
        r.deep_view() == providers_in(fs.deep_view()),
{
    let ghost all = fs.deep_view();
    let mut out: Vec<Channel> = Vec::new();
    let mut i: usize = 0;
    while i < fs.len()
        invariant
            i <= fs@.len(),
            all == fs.deep_view(),
            out@.len() == i,
            forall|k: int|
                0 <= k < i ==> provider(#[trigger] all[k]) == Some(out@[k].deep_view()),
        decreases fs@.len() - i,
    {
        assert(all[i as int] == fs@[i as int].deep_view());
        let entry = &fs[i].value;
        if !record_shape(entry, 1) {
            assert(provider(all[i as int]) is None);
            return None;
        }
        match get_flag(entry, "enabled", 0) {
            Some(enabled) => {
                out.push(
                    Channel {
                        name: fs[i].key.clone(),
                        enabled,
                        connected: enabled,
                        last_error: None,
                    },
                );
            },
            None => {
                assert(provider(all[i as int]) is None);
                return None;
            },
        }
        i = i + 1;
    }
    assert(out.deep_view() =~= providers_in(all)->Some_0);
    Some(out)
}

fn read_channels(v: &Json) -> (r: Option<Vec<Channel>>)
    ensures
        r.deep_view() == channels_in(v.deep_view()),
{
    match get_slot(v, "channels", 0) {
        None => Some(no_items()),
        Some(Json::Null) => Some(no_items()),
        Some(Json::Object(fs)) => {
            proof {
                object_tree(*fs);
            }
            read_providers(fs)
        },
        _ => None,
    }
}

fn read_primary(v: &Json) -> (r: Option<Option<String>>)
    ensures
        r.deep_view() == primary_in(v.deep_view()),
{
    match get_slot(v, "agents", 1) {
        None => Some(None),
        Some(Json::Null) => Some(None),
        Some(a) => match read_nested(a, "defaults") {
            None => None,
            Some(None) => Some(None),
            Some(Some(d)) => match read_nested(d, "model") {
                None => None,
                Some(None) => Some(None),
                Some(Some(m)) => if record_shape(m, 1) {
                    get_optional_text(m, "primary", 0, true)
                } else {
                    None
                },
            },
        },
    }
}

/// Reads the configuration.
pub fn read_config(v: &Json) -> (r: Option<(Vec<Channel>, Option<MainAgent>)>)
    ensures
        r.deep_view() == config_in(v.deep_view()),
{
    if !record_shape(v, 2) {
        return None;
    }
    match (read_channels(v), read_primary(v)) {
        (Some(channels), Some(primary)) => {
            let main = match primary {
                Some(model) => Some(
                    MainAgent {
                        id: "main".to_owned(),
                        model: Some(model),
                        state: Some("idle".to_owned()),
                    },
                ),
                None => None,
            };
            Some((channels, main))
        },
        _ => None,
    }
}

/// Why a file's contents could not be read.
pub open spec fn poll_failure(raw: Seq<u8>) -> PollErrorView {
    match parsed_bytes(raw) {
        Ok(_) => PollErrorView::Parse("unexpected shape"@),
        Err(e) => PollErrorView::Parse(e),
    }
}

/// What the cron jobs' file leads to.
pub open spec fn jobs_polled(raw: Result<Seq<u8>, PollErrorView>) -> Seq<WsEventView> {
    match raw {
        Ok(bytes) => match parsed_bytes(bytes) {
            Ok(v) => match jobs_in(v) {
                Some(jobs) => seq![WsEventView::CronSnapshot(jobs)],
                None => seq![WsEventView::Disconnected("cron: "@ + poll_failure(bytes).told())],
            },
            Err(_) => seq![WsEventView::Disconnected("cron: "@ + poll_failure(bytes).told())],
        },
        Err(e) => seq![WsEventView::Disconnected("cron: "@ + e.told())],
    }
}

/// What the cron jobs' file leads to: a snapshot, or the news that the
/// connection is down.
pub fn poll_crons(raw: Result<Vec<u8>, PollError>) -> (r: Vec<WsEvent>)
    ensures
        r.deep_view() == jobs_polled(
            match raw {
                Ok(bytes) => Ok(bytes@),
                Err(e) => Err(e.deep_view()),
            },
        ),
{
    let failure = match raw {
        Ok(bytes) => match parse_bytes(bytes.as_slice()) {
            Ok(v) => match read_jobs(&v) {
                Some(jobs) => {
                    return one_item(WsEvent::CronSnapshot(jobs));
                },
                None => PollError::Parse("unexpected shape".to_owned()),
            },
            Err(e) => PollError::Parse(e),
        },
        Err(e) => e,
    };
    let why = failure.message();
    one_item(WsEvent::Disconnected(cat("cron: ", why.as_str())))
}

/// What the configuration leads to.
pub open spec fn config_polled(raw: Result<Seq<u8>, PollErrorView>) -> Seq<WsEventView> {
    match raw {
        Ok(bytes) => match parsed_bytes(bytes) {
            Ok(v) => match config_in(v) {
                Some((channels, Some(main))) => seq![
                    WsEventView::ChannelSnapshot(channels),
                    WsEventView::MainAgent(main),
                ],
                Some((channels, None)) => seq![WsEventView::ChannelSnapshot(channels)],
                None => Seq::empty(),
            },
            Err(_) => Seq::empty(),
        },
        Err(_) => Seq::empty(),
    }
}

/// What the configuration leads to: a snapshot of the channels, and the main
/// agent if it names a model. A failure leads to nothing.
pub fn poll_config(raw: Result<Vec<u8>, PollError>) -> (r: Vec<WsEvent>)
    ensures
        r.deep_view() == config_polled(
            match raw {
                Ok(bytes) => Ok(bytes@),
                Err(e) => Err(e.deep_view()),
            },
        ),
{
    let bytes = match raw {
        Ok(bytes) => bytes,
        Err(_) => {
            return no_items();
        },
    };
    let v = match parse_bytes(bytes.as_slice()) {
        Ok(v) => v,
        Err(_) => {
            return no_items();
        },
    };
    match read_config(&v) {
        Some((channels, main)) => {
            let ghost cs = channels.deep_view();
            let mut out: Vec<WsEvent> = one_item(WsEvent::ChannelSnapshot(channels));
            if let Some(m) = main {
                let ghost mv = m.deep_view();
                push_to(&mut out, WsEvent::MainAgent(m));
                assert(out.deep_view() =~= seq![
                    WsEventView::ChannelSnapshot(cs),
                    WsEventView::MainAgent(mv),
                ]);
            }
            out
        },
        None => no_items(),
    }
}

} // verus!
