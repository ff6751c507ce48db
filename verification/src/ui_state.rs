//! Persistent UI state: selected tab, agent and session, window geometry, and
//! the connection settings.
//!
//! The state is kept as a JSON text. A missing, unreadable or corrupt text
//! stands for the default state: losing it only resets the window to what it
//! was at first launch.
use vstd::prelude::*;

use crate::app::NavItem;
use crate::json::{
    add_field, is_whole_decimal, keys_ascend, parse, parsed, pretty_printed, print_pretty, readable, Json,
    JsonField, JsonView,
};
use crate::net::fields::{
    get_number_text, get_optional_text, get_slot, is_record, number_json, number_json_keeps_text,
    number_text, number_value, optional_text, record_shape, slot,
};
use crate::keyed::{key_index_unique, lookup};
use crate::seqs::{no_items, push_to};
use crate::text::{same, signed_decimal, text_before};

verus! {

/// Connection settings.
#[derive(Debug, PartialEq)]
pub struct Settings {
    pub gateway_url: Option<String>,
    /// `"ws"` or `"mock"`; absent for the default choice.
    pub mode: Option<String>,
}

/// What [`Settings`] holds, as mathematical values.
#[verifier::ext_equal]
pub struct SettingsView {
    pub gateway_url: Option<Seq<char>>,
    pub mode: Option<Seq<char>>,
}

impl DeepView for Settings {
    type V = SettingsView;

    open spec fn deep_view(&self) -> SettingsView {
        SettingsView {
            gateway_url: self.gateway_url.deep_view(),
            mode: self.mode.deep_view(),
        }
    }
}

impl Clone for Settings {
    fn clone(&self) -> (r: Settings)
        ensures
            r.deep_view() == self.deep_view(),
    {
        Settings {
            gateway_url: self.gateway_url.clone(),
            mode: self.mode.clone(),
        }
    }
}

/// Window geometry in logical pixels. Each length is the text of a number.
#[derive(Debug, PartialEq)]
pub struct WindowState {
    pub width: String,
    pub height: String,
    /// Top-left corner; absent where the platform does not tell.
    pub position: Option<(String, String)>,
}

/// What [`WindowState`] holds, as mathematical values.
#[verifier::ext_equal]
pub struct WindowStateView {
    pub width: Seq<char>,
    pub height: Seq<char>,
    pub position: Option<(Seq<char>, Seq<char>)>,
}

impl DeepView for WindowState {
    type V = WindowStateView;

    open spec fn deep_view(&self) -> WindowStateView {
        WindowStateView {
            width: self.width.deep_view(),
            height: self.height.deep_view(),
            position: self.position.deep_view(),
        }
    }
}

impl Clone for WindowState {
    fn clone(&self) -> (r: WindowState)
        ensures
            r.deep_view() == self.deep_view(),
    {
        WindowState {
            width: self.width.clone(),
            height: self.height.clone(),
            position: match &self.position {
                Some((x, y)) => Some((x.clone(), y.clone())),
                None => None,
            },
        }
    }
}

/// What is kept from one launch to the next.
#[derive(Debug, PartialEq)]
pub struct UiState {
    /// Last-selected tab, by name: a name that is not known any more falls
    /// back to the first tab.
    pub tab: Option<String>,
    /// Last-selected agent in the Chat picker.
    pub selected_agent: Option<String>,
    /// Last-selected session.
    pub active_session_key: Option<String>,
    pub window: Option<WindowState>,
    pub settings: Settings,
}

/// What [`UiState`] holds, as mathematical values.
#[verifier::ext_equal]
pub struct UiStateView {
    pub tab: Option<Seq<char>>,
    pub selected_agent: Option<Seq<char>>,
    pub active_session_key: Option<Seq<char>>,
    pub window: Option<WindowStateView>,
    pub settings: SettingsView,
}

impl DeepView for UiState {
    type V = UiStateView;

    open spec fn deep_view(&self) -> UiStateView {
        UiStateView {
            tab: self.tab.deep_view(),
            selected_agent: self.selected_agent.deep_view(),
            active_session_key: self.active_session_key.deep_view(),
            window: self.window.deep_view(),
            settings: self.settings.deep_view(),
        }
    }
}

impl Clone for UiState {
    fn clone(&self) -> (r: UiState)
        ensures
            r.deep_view() == self.deep_view(),
    {
        UiState {
            tab: self.tab.clone(),
            selected_agent: self.selected_agent.clone(),
            active_session_key: self.active_session_key.clone(),
            window: self.window.clone(),
            settings: self.settings.clone(),
        }
    }
}

/// No settings.
pub open spec fn no_settings() -> SettingsView {
    SettingsView { gateway_url: None, mode: None }
}

/// The state of a first launch.
pub open spec fn first_state() -> UiStateView {
    UiStateView {
        tab: None,
        selected_agent: None,
        active_session_key: None,
        window: None,
        settings: no_settings(),
    }
}

impl Default for Settings {
    fn default() -> (r: Settings)
        ensures
            r.deep_view() == no_settings(),
    {
        Settings { gateway_url: None, mode: None }
    }
}

impl Default for UiState {
    fn default() -> (r: UiState)
        ensures
            r.deep_view() == first_state(),
    {
        UiState {
            tab: None,
            selected_agent: None,
            active_session_key: None,
            window: None,
            settings: Settings::default(),
        }
    }
}

// ---------------------------------------------------------------------
// Tabs by name
// ---------------------------------------------------------------------

/// The name of a tab.
pub open spec fn nav_name(item: NavItem) -> Seq<char> {
    match item {
        NavItem::Overview => "overview"@,
        NavItem::Chat => "chat"@,
        NavItem::Agents => "agents"@,
        NavItem::Sessions => "sessions"@,
        NavItem::Logs => "logs"@,
        NavItem::Settings => "settings"@,
    }
}

/// The tab with a name.
pub open spec fn nav_named(s: Seq<char>) -> Option<NavItem> {
    if s == "overview"@ {
        Some(NavItem::Overview)
    } else if s == "chat"@ {
        Some(NavItem::Chat)
    } else if s == "agents"@ {
        Some(NavItem::Agents)
    } else if s == "sessions"@ {
        Some(NavItem::Sessions)
    } else if s == "logs"@ {
        Some(NavItem::Logs)
    } else if s == "settings"@ {
        Some(NavItem::Settings)
    } else {
        None
    }
}

pub fn nav_from_str(s: &str) -> (r: Option<NavItem>)
    ensures
        r == nav_named(s@),
{
    if same(s, "overview") {
        Some(NavItem::Overview)
    } else if same(s, "chat") {
        Some(NavItem::Chat)
    } else if same(s, "agents") {
        Some(NavItem::Agents)
    } else if same(s, "sessions") {
        Some(NavItem::Sessions)
    } else if same(s, "logs") {
        Some(NavItem::Logs)
    } else if same(s, "settings") {
        Some(NavItem::Settings)
    } else {
        None
    }
}

pub fn nav_to_str(item: NavItem) -> (r: &'static str)
    ensures
        r@ == nav_name(item),
{
    match item {
        NavItem::Overview => "overview",
        NavItem::Chat => "chat",
        NavItem::Agents => "agents",
        NavItem::Sessions => "sessions",
        NavItem::Logs => "logs",
        NavItem::Settings => "settings",
    }
}

/// A tab is found again by its name, and a name that is found is the tab's.
pub proof fn nav_round_trip(item: NavItem, s: Seq<char>)
    ensures
        nav_named(nav_name(item)) == Some(item),
        nav_named(s) == Some(item) ==> s == nav_name(item),
{
    reveal_strlit("overview");
    reveal_strlit("chat");
    reveal_strlit("agents");
    reveal_strlit("sessions");
    reveal_strlit("logs");
    reveal_strlit("settings");
    assert("overview"@[0] == 'o');
    assert("chat"@[0] == 'c');
    assert("agents"@[0] == 'a');
    assert("sessions"@[0] == 's' && "sessions"@[2] == 's');
    assert("logs"@[0] == 'l');
    assert("settings"@[0] == 's' && "settings"@[2] == 't');
}

// ---------------------------------------------------------------------
// To JSON and back
// ---------------------------------------------------------------------

/// `fs` with a text member, when there is a text.
pub open spec fn with_text(
    fs: Seq<(Seq<char>, JsonView)>,
    k: Seq<char>,
    v: Option<Seq<char>>,
) -> Seq<(Seq<char>, JsonView)> {
    match v {
        Some(s) => fs.push((k, JsonView::Str(s))),
        None => fs,
    }
}

/// Settings as a value.
pub open spec fn settings_json(s: SettingsView) -> JsonView {
    JsonView::Object(
        with_text(with_text(Seq::empty(), "gateway_url"@, s.gateway_url), "mode"@, s.mode),
    )
}

/// Window geometry as a value.
pub open spec fn window_json(w: WindowStateView) -> JsonView {
    let height = Seq::<(Seq<char>, JsonView)>::empty().push(("height"@, number_json(w.height)));
    let position = match w.position {
        Some((x, y)) => height.push(
            (
                "position"@,
                JsonView::Array(
                    Seq::<JsonView>::empty().push(number_json(x)).push(number_json(y)),
                ),
            ),
        ),
        None => height,
    };
    JsonView::Object(position.push(("width"@, number_json(w.width))))
}

/// The state as a value: absent parts are left out, and members stand in the
/// order of their keys.
pub open spec fn state_json(s: UiStateView) -> JsonView {
    let a = with_text(Seq::empty(), "active_session_key"@, s.active_session_key);
    let b = with_text(a, "selected_agent"@, s.selected_agent);
    let c = if s.settings == no_settings() {
        b
    } else {
        b.push(("settings"@, settings_json(s.settings)))
    };
    let d = with_text(c, "tab"@, s.tab);
    JsonView::Object(
        match s.window {
            Some(w) => d.push(("window"@, window_json(w))),
            None => d,
        },
    )
}

/// The text of a number that must be there.
pub open spec fn required_number(v: JsonView, k: Seq<char>, i: int) -> Option<Seq<char>> {
    match slot(v, k, i) {
        Some(n) => number_text(n),
        None => None,
    }
}

/// A position: two numbers, or nothing.
pub open spec fn position_of(o: Option<JsonView>) -> Option<Option<(Seq<char>, Seq<char>)>> {
    match o {
        None => Some(None),
        Some(JsonView::Null) => Some(None),
        Some(JsonView::Array(a)) => if a.len() == 2 && number_text(a[0]) is Some && number_text(
            a[1],
        ) is Some {
            Some(Some((number_text(a[0])->Some_0, number_text(a[1])->Some_0)))
        } else {
            None
        },
        _ => None,
    }
}

/// Window geometry out of a value.
pub open spec fn window_of(v: JsonView) -> Option<WindowStateView> {
    if !is_record(v, 3) {
        None
    } else {
        let width = required_number(v, "width"@, 0);
        let height = required_number(v, "height"@, 1);
        let position = position_of(slot(v, "position"@, 2));
        if width is Some && height is Some && position is Some {
            Some(
                WindowStateView {
                    width: width->Some_0,
                    height: height->Some_0,
                    position: position->Some_0,
                },
            )
        } else {
            None
        }
    }
}

/// Settings out of a value.
pub open spec fn settings_of(v: JsonView) -> Option<SettingsView> {
    if !is_record(v, 2) {
        None
    } else {
        let gateway_url = optional_text(v, "gateway_url"@, 0, true);
        let mode = optional_text(v, "mode"@, 1, true);
        if gateway_url is Some && mode is Some {
            Some(SettingsView { gateway_url: gateway_url->Some_0, mode: mode->Some_0 })
        } else {
            None
        }
    }
}

/// The state out of a value. Absent parts take their defaults, and members
/// that are not known are ignored.
pub open spec fn state_of(v: JsonView) -> Option<UiStateView> {
    if !is_record(v, 5) {
        None
    } else {
        let tab = optional_text(v, "tab"@, 0, true);
        let selected_agent = optional_text(v, "selected_agent"@, 1, true);
        let active_session_key = optional_text(v, "active_session_key"@, 2, true);
        let window = match slot(v, "window"@, 3) {
            None => Some(None),
            Some(JsonView::Null) => Some(None),
            Some(w) => match window_of(w) {
                Some(x) => Some(Some(x)),
                None => None,
            },
        };
        let settings = match slot(v, "settings"@, 4) {
            None => Some(no_settings()),
            Some(x) => settings_of(x),
        };
        if tab is Some && selected_agent is Some && active_session_key is Some && window is Some
            && settings is Some {
            Some(
                UiStateView {
                    tab: tab->Some_0,
                    selected_agent: selected_agent->Some_0,
                    active_session_key: active_session_key->Some_0,
                    window: window->Some_0,
                    settings: settings->Some_0,
                },
            )
        } else {
            None
        }
    }
}

/// The state that a stored text stands for.
pub open spec fn stored_state(raw: Option<Seq<char>>) -> UiStateView {
    match raw {
        Some(text) => match parsed(text) {
            Ok(v) => match state_of(v) {
                Some(s) => s,
                None => first_state(),
            },
            Err(_) => first_state(),
        },
        None => first_state(),
    }
}

impl Settings {
    pub fn to_json(&self) -> (r: Json)
        ensures
            r.deep_view() == settings_json(self.deep_view()),
    {
        let mut fs: Vec<JsonField> = no_items();
        if let Some(u) = &self.gateway_url {
            add_field(&mut fs, "gateway_url", Json::text(u.as_str()));
        }
        if let Some(m) = &self.mode {
            add_field(&mut fs, "mode", Json::text(m.as_str()));
        }
        Json::object(fs)
    }

    pub fn decode(v: &Json) -> (r: Option<Settings>)
        ensures
            r.deep_view() == settings_of(v.deep_view()),
    {
        if !record_shape(v, 2) {
            return None;
        }
        let gateway_url: Option<String> = get_optional_text(v, "gateway_url", 0, true)?;
        let mode: Option<String> = get_optional_text(v, "mode", 1, true)?;
        Some(Settings { gateway_url, mode })
    }
}

fn number_slot(v: &Json, k: &str, i: usize) -> (r: Option<String>)
    ensures
        r.deep_view() == required_number(v.deep_view(), k@, i as int),
{
    match get_slot(v, k, i) {
        Some(n) => get_number_text(n),
        None => None,
    }
}

fn read_position(o: Option<&Json>) -> (r: Option<Option<(String, String)>>)
    ensures
        r.deep_view() == position_of(o.deep_view()),
{
    match o {
        None => Some(None),
        Some(Json::Null) => Some(None),
        Some(Json::Array(a)) => {
            proof {
                crate::json::array_tree(*a);
            }
            if a.len() != 2 {
                return None;
            }
            assert(a.deep_view()[0] == a@[0].deep_view() && a.deep_view()[1] == a@[1].deep_view());
            match (get_number_text(&a[0]), get_number_text(&a[1])) {
                (Some(x), Some(y)) => Some(Some((x, y))),
                _ => None,
            }
        },
        _ => None,
    }
}

impl WindowState {
    pub fn to_json(&self) -> (r: Json)
        ensures
            r.deep_view() == window_json(self.deep_view()),
    {
        let mut fs: Vec<JsonField> = no_items();
        add_field(&mut fs, "height", number_value(self.height.as_str()));
        if let Some((x, y)) = &self.position {
            let mut at: Vec<Json> = no_items();
            push_to(&mut at, number_value(x.as_str()));
            push_to(&mut at, number_value(y.as_str()));
            add_field(&mut fs, "position", Json::array(at));
        }
        add_field(&mut fs, "width", number_value(self.width.as_str()));
        Json::object(fs)
    }

    pub fn decode(v: &Json) -> (r: Option<WindowState>)
        ensures
            r.deep_view() == window_of(v.deep_view()),
    {
        if !record_shape(v, 3) {
            return None;
        }
        let width: String = number_slot(v, "width", 0)?;
        let height: String = number_slot(v, "height", 1)?;
        let position: Option<(String, String)> = read_position(get_slot(v, "position", 2))?;
        Some(WindowState { width, height, position })
    }
}

impl UiState {
    pub fn to_json(&self) -> (r: Json)
        ensures
            r.deep_view() == state_json(self.deep_view()),
    {
        let mut fs: Vec<JsonField> = no_items();
        if let Some(k) = &self.active_session_key {
            add_field(&mut fs, "active_session_key", Json::text(k.as_str()));
        }
        if let Some(a) = &self.selected_agent {
            add_field(&mut fs, "selected_agent", Json::text(a.as_str()));
        }
        if self.settings.gateway_url.is_some() || self.settings.mode.is_some() {
            add_field(&mut fs, "settings", self.settings.to_json());
        }
        if let Some(t) = &self.tab {
            add_field(&mut fs, "tab", Json::text(t.as_str()));
        }
        if let Some(w) = &self.window {
            add_field(&mut fs, "window", w.to_json());
        }
        Json::object(fs)
    }

    pub fn decode(v: &Json) -> (r: Option<UiState>)
        ensures
            r.deep_view() == state_of(v.deep_view()),
    {
        if !record_shape(v, 5) {
            return None;
        }
        let tab: Option<String> = get_optional_text(v, "tab", 0, true)?;
        let selected_agent: Option<String> = get_optional_text(v, "selected_agent", 1, true)?;
        let active_session_key: Option<String> = get_optional_text(
            v,
            "active_session_key",
            2,
            true,
        )?;
        let window: Option<WindowState> = match get_slot(v, "window", 3) {
            None => None,
            Some(Json::Null) => None,
            Some(w) => Some(WindowState::decode(w)?),
        };
        let settings: Settings = match get_slot(v, "settings", 4) {
            None => Settings::default(),
            Some(x) => Settings::decode(x)?,
        };
        Some(UiState { tab, selected_agent, active_session_key, window, settings })
    }
}

/// The state that a stored text stands for. Missing and corrupt texts both
/// stand for the default, so that the caller never has to tell them apart.
pub fn load(raw: Option<&str>) -> (r: UiState)
    ensures
        r.deep_view() == stored_state(raw.deep_view()),
{
    match raw {
        Some(text) => match parse(text) {
            Ok(v) => match UiState::decode(&v) {
                Some(s) => s,
                None => UiState::default(),
            },
            Err(_) => UiState::default(),
        },
        None => UiState::default(),
    }
}

/// The text under which the state is stored. Loading it gives the state
/// again, as long as the window's lengths are whole numbers or texts of numbers
/// that read as themselves.
pub fn save(state: &UiState) -> (r: String)
    ensures
        r@ == pretty_printed(state_json(state.deep_view())),
        plain_numbers(state.deep_view()) ==> stored_state(Some(r@)) == state.deep_view(),
{
    let j = state.to_json();
    proof {
        state_round_trip(state.deep_view());
        state_is_readable(state.deep_view());
    }
    print_pretty(&j)
}

/// Whether a text is that of a number, as it is printed: a whole number, with
/// the decimal 0 or without, or one that reads as itself.
pub open spec fn plain_number(t: Seq<char>) -> bool {
    ||| is_whole_decimal(t)
    ||| exists|n: i64| #[trigger] signed_decimal(n as int) == t
    ||| parsed(t) == Ok::<JsonView, Seq<char>>(JsonView::Num(t))
}

/// Whether the window's lengths are texts of numbers as they are printed.
pub open spec fn plain_numbers(s: UiStateView) -> bool {
    match s.window {
        Some(w) => plain_number(w.width) && plain_number(w.height) && (match w.position {
            Some((x, y)) => plain_number(x) && plain_number(y),
            None => true,
        }),
        None => true,
    }
}

// ---------------------------------------------------------------------
// What a save keeps
// ---------------------------------------------------------------------

/// The text of a whole length, as a window reports it.
pub open spec fn length_text(n: i64) -> Seq<char> {
    signed_decimal(n as int) + ".0"@
}

/// A window whose lengths are whole numbers never keeps a state from being
/// restored.
pub proof fn whole_windows_are_kept(s: UiStateView, w: i64, h: i64, at: Option<(i64, i64)>)
    requires
        -1_000_000_000 <= w <= 1_000_000_000,
        -1_000_000_000 <= h <= 1_000_000_000,
        at matches Some((x, y)) ==> -1_000_000_000 <= x <= 1_000_000_000 && -1_000_000_000 <= y
            <= 1_000_000_000,
        s.window == Some(
            WindowStateView {
                width: length_text(w),
                height: length_text(h),
                position: match at {
                    Some((x, y)) => Some((length_text(x), length_text(y))),
                    None => None,
                },
            },
        ),
    ensures
        plain_numbers(s),
{
    assert(signed_decimal(w as int) + ".0"@ == length_text(w));
    assert(signed_decimal(h as int) + ".0"@ == length_text(h));
    if let Some((x, y)) = at {
        assert(signed_decimal(x as int) + ".0"@ == length_text(x));
        assert(signed_decimal(y as int) + ".0"@ == length_text(y));
    }
}

proof fn key_texts()
    ensures
        text_before("active_session_key"@, "selected_agent"@),
        text_before("active_session_key"@, "settings"@),
        text_before("active_session_key"@, "tab"@),
        text_before("active_session_key"@, "window"@),
        text_before("selected_agent"@, "settings"@),
        text_before("selected_agent"@, "tab"@),
        text_before("selected_agent"@, "window"@),
        text_before("settings"@, "tab"@),
        text_before("settings"@, "window"@),
        text_before("tab"@, "window"@),
        text_before("gateway_url"@, "mode"@),
        text_before("height"@, "position"@),
        text_before("height"@, "width"@),
        text_before("position"@, "width"@),
{
    reveal_strlit("active_session_key");
    reveal_strlit("selected_agent");
    reveal_strlit("settings");
    reveal_strlit("tab");
    reveal_strlit("window");
    reveal_strlit("gateway_url");
    reveal_strlit("mode");
    reveal_strlit("height");
    reveal_strlit("position");
    reveal_strlit("width");
    reveal_with_fuel(text_before, 4);
    let a = "selected_agent"@;
    let b = "settings"@;
    assert(a[0] == 's' && b[0] == 's');
    assert(a.drop_first()[0] == 'e' && b.drop_first()[0] == 'e');
    assert(a.drop_first().drop_first()[0] == 'l' && b.drop_first().drop_first()[0] == 't');
}

proof fn before_differs(a: Seq<char>, b: Seq<char>)
    requires
        text_before(a, b),
    ensures
        a != b,
    decreases a.len(),
{
    if a == b && a.len() > 0 {
        before_differs(a.drop_first(), b.drop_first());
    }
}

proof fn keys_differ()
    ensures
        "active_session_key"@ != "selected_agent"@,
        "active_session_key"@ != "settings"@,
        "active_session_key"@ != "tab"@,
        "active_session_key"@ != "window"@,
        "selected_agent"@ != "settings"@,
        "selected_agent"@ != "tab"@,
        "selected_agent"@ != "window"@,
        "settings"@ != "tab"@,
        "settings"@ != "window"@,
        "tab"@ != "window"@,
        "gateway_url"@ != "mode"@,
        "height"@ != "position"@,
        "height"@ != "width"@,
        "position"@ != "width"@,
{
    key_texts();
    before_differs("active_session_key"@, "selected_agent"@);
    before_differs("active_session_key"@, "settings"@);
    before_differs("active_session_key"@, "tab"@);
    before_differs("active_session_key"@, "window"@);
    before_differs("selected_agent"@, "settings"@);
    before_differs("selected_agent"@, "tab"@);
    before_differs("selected_agent"@, "window"@);
    before_differs("settings"@, "tab"@);
    before_differs("settings"@, "window"@);
    before_differs("tab"@, "window"@);
    before_differs("gateway_url"@, "mode"@);
    before_differs("height"@, "position"@);
    before_differs("height"@, "width"@);
    before_differs("position"@, "width"@);
}

/// What a member added at the end does to the others.
proof fn lookup_push(fs: Seq<(Seq<char>, JsonView)>, k: Seq<char>, v: JsonView, other: Seq<char>)
    ensures
        lookup(fs, k) is None ==> lookup(fs.push((k, v)), k) == Some(v),
        other != k ==> lookup(fs.push((k, v)), other) == lookup(fs, other),
{
    crate::keyed::key_index_bounds(fs, k);
    crate::keyed::key_index_bounds(fs, other);
    let p = fs.push((k, v));
    let i = crate::keyed::key_index(fs, k);
    if i >= fs.len() {
        key_index_unique(p, k, i);
    }
    if other != k {
        let j = crate::keyed::key_index(fs, other);
        if j < fs.len() {
            key_index_unique(p, other, j);
        } else {
            key_index_unique(p, other, p.len() as int);
        }
    }
}

proof fn lookup_with_text(
    fs: Seq<(Seq<char>, JsonView)>,
    k: Seq<char>,
    v: Option<Seq<char>>,
    other: Seq<char>,
)
    ensures
        lookup(fs, k) is None ==> lookup(with_text(fs, k, v), k) == (match v {
            Some(s) => Some(JsonView::Str(s)),
            None => None,
        }),
        other != k ==> lookup(with_text(fs, k, v), other) == lookup(fs, other),
{
    if let Some(s) = v {
        lookup_push(fs, k, JsonView::Str(s), other);
    }
}

proof fn settings_round_trip(s: SettingsView)
    ensures
        settings_of(settings_json(s)) == Some(s),
{
    keys_differ();
    let e = Seq::<(Seq<char>, JsonView)>::empty();
    let a = with_text(e, "gateway_url"@, s.gateway_url);
    lookup_with_text(e, "gateway_url"@, s.gateway_url, "mode"@);
    lookup_with_text(a, "mode"@, s.mode, "gateway_url"@);
    assert(lookup(e, "mode"@) is None);
}

proof fn window_round_trip(w: WindowStateView)
    ensures
        window_of(window_json(w)) == Some(w),
{
    keys_differ();
    number_json_keeps_text(w.width);
    number_json_keeps_text(w.height);
    if let Some((x, y)) = w.position {
        number_json_keeps_text(x);
        number_json_keeps_text(y);
    }
    let e = Seq::<(Seq<char>, JsonView)>::empty();
    let h = e.push(("height"@, number_json(w.height)));
    lookup_push(e, "height"@, number_json(w.height), "position"@);
    lookup_push(e, "height"@, number_json(w.height), "width"@);
    let p = match w.position {
        Some((x, y)) => {
            let at = JsonView::Array(
                Seq::<JsonView>::empty().push(number_json(x)).push(number_json(y)),
            );
            lookup_push(h, "position"@, at, "height"@);
            lookup_push(h, "position"@, at, "width"@);
            h.push(("position"@, at))
        },
        None => h,
    };
    lookup_push(p, "width"@, number_json(w.width), "height"@);
    lookup_push(p, "width"@, number_json(w.width), "position"@);
    assert(lookup(e, "height"@) is None && lookup(e, "position"@) is None && lookup(e, "width"@)
        is None);
}

/// Turning a state into a value and back gives the state again, whatever it
/// holds.
pub proof fn state_round_trip(s: UiStateView)
    ensures
        state_of(state_json(s)) == Some(s),
{
    keys_differ();
    let e = Seq::<(Seq<char>, JsonView)>::empty();
    let ks = "active_session_key"@;
    let sa = "selected_agent"@;
    let st = "settings"@;
    let tb = "tab"@;
    let wd = "window"@;
    assert(lookup(e, ks) is None && lookup(e, sa) is None && lookup(e, st) is None && lookup(e, tb)
        is None && lookup(e, wd) is None);
    let a = with_text(e, ks, s.active_session_key);
    lookup_with_text(e, ks, s.active_session_key, sa);
    lookup_with_text(e, ks, s.active_session_key, st);
    lookup_with_text(e, ks, s.active_session_key, tb);
    lookup_with_text(e, ks, s.active_session_key, wd);
    let b = with_text(a, sa, s.selected_agent);
    lookup_with_text(a, sa, s.selected_agent, ks);
    lookup_with_text(a, sa, s.selected_agent, st);
    lookup_with_text(a, sa, s.selected_agent, tb);
    lookup_with_text(a, sa, s.selected_agent, wd);
    let c = if s.settings == no_settings() {
        b
    } else {
        settings_round_trip(s.settings);
        lookup_push(b, st, settings_json(s.settings), ks);
        lookup_push(b, st, settings_json(s.settings), sa);
        lookup_push(b, st, settings_json(s.settings), tb);
        lookup_push(b, st, settings_json(s.settings), wd);
        b.push((st, settings_json(s.settings)))
    };
    let d = with_text(c, tb, s.tab);
    lookup_with_text(c, tb, s.tab, ks);
    lookup_with_text(c, tb, s.tab, sa);
    lookup_with_text(c, tb, s.tab, st);
    lookup_with_text(c, tb, s.tab, wd);
    if let Some(w) = s.window {
        window_round_trip(w);
        lookup_push(d, wd, window_json(w), ks);
        lookup_push(d, wd, window_json(w), sa);
        lookup_push(d, wd, window_json(w), st);
        lookup_push(d, wd, window_json(w), tb);
    }
}

proof fn state_is_readable(s: UiStateView)
    ensures
        plain_numbers(s) ==> readable(state_json(s), 100),
{
    key_texts();
    reveal_with_fuel(readable, 5);
    let e = Seq::<(Seq<char>, JsonView)>::empty();
    let a = with_text(e, "active_session_key"@, s.active_session_key);
    let b = with_text(a, "selected_agent"@, s.selected_agent);
    let c = if s.settings == no_settings() {
        b
    } else {
        b.push(("settings"@, settings_json(s.settings)))
    };
    let d = with_text(c, "tab"@, s.tab);
    assert(keys_ascend(a));
    assert(keys_ascend(b));
    assert(keys_ascend(c));
    assert(keys_ascend(d));
    assert(keys_ascend(state_json(s)->Object_0));
    if plain_numbers(s) {
        let g = with_text(e, "gateway_url"@, s.settings.gateway_url);
        let m = with_text(g, "mode"@, s.settings.mode);
        assert(keys_ascend(m));
        assert(readable(settings_json(s.settings), 99));
        if let Some(w) = s.window {
            let fs = window_json(w)->Object_0;
            assert(keys_ascend(fs));
            if let Some((x, y)) = w.position {
                let at = Seq::<JsonView>::empty().push(number_json(x)).push(number_json(y));
                assert(readable(at[0], 97) && readable(at[1], 97));
                assert(readable(JsonView::Array(at), 98));
            }
            assert forall|i: int| 0 <= i < fs.len() implies readable((#[trigger] fs[i]).1, 98) by {}
            assert(readable(window_json(w), 99));
        }
        let all = state_json(s)->Object_0;
        assert forall|i: int| 0 <= i < all.len() implies readable((#[trigger] all[i]).1, 99) by {}
    }
}

} // verus!
