//! What is kept between launches, said of everything that may be kept.
use vstd::prelude::*;

use crate::config::{
    found_token, given, resolved_url, token_from_config, token_from_env, token_from_file,
    token_from_keychain, ConfigErrorView, TokenStepView,
};
use crate::crypto::{base64url_decoded, hex_text, sha256_digest};
use crate::device_identity::{
    decoded_seed, device_id_for, stored_seed, IdentityError, IdentityErrorView,
};
use crate::json::{items_in, member, parsed, text_in, JsonView};
use crate::keyed::{key_index_bounds, lookup, push_law};
use crate::net::fields::number_json;
use crate::net::openclaw_ssh::PollErrorView;
use crate::secret_store::{loaded, own_backend, Backend};
use crate::text::trimmed;
use crate::ui_state::{
    settings_json, state_json, state_of, state_round_trip, stored_state, window_json, SettingsView,
    UiStateView, WindowStateView,
};

verus! {

// ---------------------------------------------------------------------
// The gateway and its token
// ---------------------------------------------------------------------

/// A blank text counts as none, and any other without the space around it.
pub proof fn blank_is_none(s: Seq<char>)
    ensures
        given(None) is None,
        trimmed(s).len() == 0 ==> given(Some(s)) is None,
        trimmed(s).len() > 0 ==> given(Some(s)) == Some(trimmed(s)),
{
}

/// The environment's URL wins over the saved one, and either counts when it
/// is the only one.
pub proof fn environment_wins(env: Seq<char>, saved: Seq<char>)
    ensures
        trimmed(env).len() > 0 ==> resolved_url(Some(env), Some(saved)) == Some(trimmed(env))
            && resolved_url(Some(env), None) == Some(trimmed(env)),
        trimmed(env).len() == 0 && trimmed(saved).len() > 0 ==> resolved_url(
            Some(env),
            Some(saved),
        ) == Some(trimmed(saved)),
        trimmed(saved).len() > 0 ==> resolved_url(None, Some(saved)) == Some(trimmed(saved)),
        resolved_url(None, None) is None,
        trimmed(env).len() == 0 && trimmed(saved).len() == 0 ==> resolved_url(
            Some(env),
            Some(saved),
        ) is None,
{
}

/// A token in the environment is used as it is and kept nowhere.
pub proof fn token_of_the_environment(env: Seq<char>)
    ensures
        trimmed(env).len() > 0 ==> token_from_env(Some(env)) == (TokenStepView::Found {
            token: trimmed(env),
            mirror: false,
        }),
        trimmed(env).len() == 0 ==> token_from_env(Some(env)) == TokenStepView::ReadFile,
        token_from_env(None) == TokenStepView::ReadFile,
{
}

/// The token of the configuration is the text under `gateway`, `auth`,
/// `token`, word for word, and is kept from then on; without one the
/// configuration has none.
pub proof fn token_of_the_configuration(v: JsonView, token: Seq<char>)
    ensures
        text_in(member(member(v.field("gateway"@), "auth"@), "token"@)) == Some(token)
            ==> token_from_config(v) == (TokenStepView::Found { token, mirror: true }),
        v is Object && v.field("gateway"@) is None ==> token_from_config(v)
            == TokenStepView::Failed(ConfigErrorView::MissingToken),
        (v.field("gateway"@) matches Some(g) && g is Object && g.field("auth"@) is None)
            ==> token_from_config(v) == TokenStepView::Failed(ConfigErrorView::MissingToken),
        (member(v.field("gateway"@), "auth"@) matches Some(a) && a is Object && a.field("token"@)
            is None) ==> token_from_config(v) == TokenStepView::Failed(
            ConfigErrorView::MissingToken,
        ),
{
}

/// What is loaded is what is stored: with the file first in a build for
/// debugging, else with the keychain first. A token that was found only in the
/// file then moves to the keychain.
pub proof fn own_store_comes_first(keychain: Seq<char>, file: Seq<char>)
    requires
        trimmed(file).len() > 0,
    ensures
        loaded(true, Some(keychain), Some(file)).token == Some(trimmed(file)),
        loaded(false, Some(keychain), Some(file)).token == Some(keychain),
        loaded(true, Some(keychain), None).token == Some(keychain),
        loaded(false, None, Some(file)).token == Some(trimmed(file)),
        loaded(true, None, Some(file)).token == Some(trimmed(file)),
        loaded(false, None, Some(file)).migrate,
        !loaded(false, Some(keychain), Some(file)).migrate,
        !loaded(true, None, Some(file)).migrate,
        loaded(true, None, None).token is None,
        loaded(false, None, None).token is None,
        own_backend(true) == Backend::File,
        own_backend(false) == Backend::Keychain,
{
}

// ---------------------------------------------------------------------
// The device
// ---------------------------------------------------------------------

/// The stored key is the keychain's where it has one, else the file's; it is
/// used exactly when it decodes to thirty-two bytes.
pub proof fn stored_key_is_found(keychain: Seq<char>, file: Seq<char>, raw: Option<Seq<char>>)
    ensures
        stored_seed(Some(keychain), raw) == Some(decoded_seed(keychain)),
        stored_seed(None, Some(file)) == Some(decoded_seed(trimmed(file))),
        stored_seed(None, None) is None,
        base64url_decoded(keychain) matches Ok(b) ==> (b.len() == 32 ==> decoded_seed(keychain)
            == Ok::<Seq<u8>, IdentityErrorView>(b)) && (b.len() != 32 ==> decoded_seed(keychain)
            is Err),
        base64url_decoded(keychain) is Err ==> decoded_seed(keychain) is Err,
{
}

/// Two devices with different digests have different ids: the text of bytes
/// tells them apart.
pub proof fn hex_tells_bytes_apart(a: Seq<u8>, b: Seq<u8>)
    ensures
        hex_text(a).len() == 2 * a.len(),
        hex_text(a) == hex_text(b) ==> a == b,
{
    if hex_text(a) == hex_text(b) {
        assert(hex_text(a).len() == hex_text(b).len());
        assert forall|i: int| 0 <= i < a.len() implies a[i] == b[i] by {
            assert(hex_text(a)[2 * i] == hex_text(b)[2 * i]);
            assert(hex_text(a)[2 * i + 1] == hex_text(b)[2 * i + 1]);
            let x = a[i] as int;
            let y = b[i] as int;
            assert((2 * i) / 2 == i && (2 * i) % 2 == 0);
            assert((2 * i + 1) / 2 == i && (2 * i + 1) % 2 == 1);
            hex_digits_differ(x / 16, y / 16);
            hex_digits_differ(x % 16, y % 16);
        }
        assert(a =~= b);
    }
}

proof fn hex_digits_differ(x: int, y: int)
    requires
        0 <= x < 16,
        0 <= y < 16,
    ensures
        crate::crypto::hex_digit(x) == crate::crypto::hex_digit(y) ==> x == y,
{
}

// ---------------------------------------------------------------------
// The window's state
// ---------------------------------------------------------------------

proof fn names_differ()
    ensures
        "active_session_key"@ != "selected_agent"@,
        "active_session_key"@ != "settings"@,
        "active_session_key"@ != "tab"@,
        "active_session_key"@ != "window"@,
        "selected_agent"@ != "settings"@,
        "selected_agent"@ != "tab"@,
        "selected_agent"@ != "window"@,
        "settings"@ != "tab"@,
        "settings"@ != "window"@,
        "tab"@ != "window"@,
        "gateway_url"@ != "mode"@,
        "height"@ != "position"@,
        "height"@ != "width"@,
        "position"@ != "width"@,
{
    reveal_strlit("active_session_key");
    reveal_strlit("selected_agent");
    reveal_strlit("settings");
    reveal_strlit("tab");
    reveal_strlit("window");
    reveal_strlit("gateway_url");
    reveal_strlit("mode");
    reveal_strlit("height");
    reveal_strlit("position");
    reveal_strlit("width");
    assert("active_session_key"@.len() == 18);
    assert("selected_agent"@.len() == 14);
    assert("settings"@.len() == 8);
    assert("tab"@.len() == 3);
    assert("window"@.len() == 6);
    assert("gateway_url"@.len() == 11);
    assert("mode"@.len() == 4);
    assert("height"@.len() == 6);
    assert("position"@.len() == 8);
    assert("width"@.len() == 5);
}

proof fn text_field(
    fs: Seq<(Seq<char>, JsonView)>,
    k: Seq<char>,
    v: Option<Seq<char>>,
    other: Seq<char>,
)
    requires
        lookup(fs, k) is None,
        other != k,
    ensures
        text_in(lookup(crate::ui_state::with_text(fs, k, v), k)) == v,
        lookup(crate::ui_state::with_text(fs, k, v), k) is Some <==> v is Some,
        lookup(crate::ui_state::with_text(fs, k, v), other) == lookup(fs, other),
{
    if let Some(s) = v {
        push_law(fs, k, JsonView::Str(s), other);
    }
}

proof fn nothing_in_nothing(k: Seq<char>)
    ensures
        lookup(Seq::<(Seq<char>, JsonView)>::empty(), k) is None,
{
    key_index_bounds(Seq::<(Seq<char>, JsonView)>::empty(), k);
}

/// The settings are written under their names, each exactly when it is set.
pub proof fn settings_are_written_by_name(s: SettingsView)
    ensures
        text_in(settings_json(s).field("gateway_url"@)) == s.gateway_url,
        text_in(settings_json(s).field("mode"@)) == s.mode,
        settings_json(s).field("gateway_url"@) is Some <==> s.gateway_url is Some,
        settings_json(s).field("mode"@) is Some <==> s.mode is Some,
{
    names_differ();
    nothing_in_nothing("gateway_url"@);
    nothing_in_nothing("mode"@);
    let none = Seq::<(Seq<char>, JsonView)>::empty();
    text_field(none, "gateway_url"@, s.gateway_url, "mode"@);
    let one = crate::ui_state::with_text(none, "gateway_url"@, s.gateway_url);
    text_field(one, "mode"@, s.mode, "gateway_url"@);
}

/// The window is written with its width and height and, where it has one, its
/// position, first across and then down.
pub proof fn window_is_written_by_name(w: WindowStateView)
    ensures
        window_json(w).field("width"@) == Some(number_json(w.width)),
        window_json(w).field("height"@) == Some(number_json(w.height)),
        w.position is None ==> window_json(w).field("position"@) is None,
        w.position matches Some((x, y)) ==> items_in(window_json(w).field("position"@)) == Some(
            seq![number_json(x), number_json(y)],
        ),
{
    names_differ();
    nothing_in_nothing("height"@);
    nothing_in_nothing("width"@);
    nothing_in_nothing("position"@);
    let none = Seq::<(Seq<char>, JsonView)>::empty();
    push_law(none, "height"@, number_json(w.height), "width"@);
    push_law(none, "height"@, number_json(w.height), "position"@);
    let one = none.push(("height"@, number_json(w.height)));
    if let Some((x, y)) = w.position {
        let at = JsonView::Array(Seq::<JsonView>::empty().push(number_json(x)).push(number_json(y)));
        push_law(one, "position"@, at, "height"@);
        push_law(one, "position"@, at, "width"@);
        let two = one.push(("position"@, at));
        push_law(two, "width"@, number_json(w.width), "height"@);
        push_law(two, "width"@, number_json(w.width), "position"@);
        assert(at->Array_0 =~= seq![number_json(x), number_json(y)]);
    } else {
        push_law(one, "width"@, number_json(w.width), "height"@);
        push_law(one, "width"@, number_json(w.width), "position"@);
    }
}

/// The state is written under its names, each member exactly when there is
/// something to write.
pub proof fn state_is_written_by_name(s: UiStateView)
    ensures
        ({
            let v = state_json(s);
            let set = s.settings.gateway_url is Some || s.settings.mode is Some;
            &&& text_in(v.field("tab"@)) == s.tab
            &&& text_in(v.field("selected_agent"@)) == s.selected_agent
            &&& text_in(v.field("active_session_key"@)) == s.active_session_key
            &&& s.window is None ==> v.field("window"@) is None
            &&& s.window matches Some(w) ==> v.field("window"@) == Some(window_json(w))
            &&& set ==> v.field("settings"@) == Some(settings_json(s.settings))
            &&& !set ==> v.field("settings"@) is None
        }),
{
    names_differ();
    let none = Seq::<(Seq<char>, JsonView)>::empty();
    nothing_in_nothing("active_session_key"@);
    nothing_in_nothing("selected_agent"@);
    nothing_in_nothing("settings"@);
    nothing_in_nothing("tab"@);
    nothing_in_nothing("window"@);
    let k1 = "active_session_key"@;
    let k2 = "selected_agent"@;
    let k3 = "settings"@;
    let k4 = "tab"@;
    let k5 = "window"@;
    text_field(none, k1, s.active_session_key, k2);
    text_field(none, k1, s.active_session_key, k3);
    text_field(none, k1, s.active_session_key, k4);
    text_field(none, k1, s.active_session_key, k5);
    let a = crate::ui_state::with_text(none, k1, s.active_session_key);
    text_field(a, k2, s.selected_agent, k1);
    text_field(a, k2, s.selected_agent, k3);
    text_field(a, k2, s.selected_agent, k4);
    text_field(a, k2, s.selected_agent, k5);
    let b = crate::ui_state::with_text(a, k2, s.selected_agent);
    let v = settings_json(s.settings);
    push_law(b, k3, v, k1);
    push_law(b, k3, v, k2);
    push_law(b, k3, v, k4);
    push_law(b, k3, v, k5);
    let c = if s.settings == crate::ui_state::no_settings() {
        b
    } else {
        b.push((k3, v))
    };
    text_field(c, k4, s.tab, k1);
    text_field(c, k4, s.tab, k2);
    text_field(c, k4, s.tab, k3);
    text_field(c, k4, s.tab, k5);
    let d = crate::ui_state::with_text(c, k4, s.tab);
    if let Some(w) = s.window {
        push_law(d, k5, window_json(w), k1);
        push_law(d, k5, window_json(w), k2);
        push_law(d, k5, window_json(w), k3);
        push_law(d, k5, window_json(w), k4);
    }
}

/// The search for a token goes on only past what is missing: the environment,
/// the file, the keychain and the configuration, in this order, and ends at
/// the first token. A token from the keychain or the configuration is kept in
/// the file from then on.
pub proof fn token_search_goes_on_past_what_is_missing(
    token: Seq<char>,
    e: ConfigErrorView,
    mirror: bool,
)
    ensures
        token_from_env(None) == TokenStepView::ReadFile,
        token_from_file(Ok(None)) == TokenStepView::AskKeychain,
        token_from_keychain(None) == TokenStepView::ReadConfig,
        found_token(token_from_file(Ok(Some(token)))) == Some(trimmed(token)),
        found_token(token_from_keychain(Some(token))) == Some(token),
        token_from_keychain(Some(token)) == (TokenStepView::Found { token, mirror: true }),
        token_from_file(Err(e)) == TokenStepView::Failed(e),
        found_token(TokenStepView::Failed(e)) is None,
        found_token(TokenStepView::Found { token, mirror }) == Some(token),
{
}

/// An error says what failed.
pub proof fn errors_say_what_failed(path: Seq<char>, why: Seq<char>, code: i32)
    ensures
        (ConfigErrorView::Read { path, source: why }).told() == "failed to read "@ + path + (": "@
            + why),
        ConfigErrorView::Parse(why).told() == "failed to parse openclaw.json: "@ + why,
        ConfigErrorView::Keyring(why).told() == "keyring error: "@ + why,
        ConfigErrorView::Io(why).told() == "file write error: "@ + why,
        IdentityError::told(IdentityErrorView::Keyring(why)) == "keyring: "@ + why,
        IdentityError::told(IdentityErrorView::Io(why)) == "io: "@ + why,
        IdentityError::told(IdentityErrorView::Malformed(why)) == "stored device key is malformed: "@
            + why,
        PollErrorView::Io(why).told() == "spawn: "@ + why,
        PollErrorView::Parse(why).told() == "parse: "@ + why,
        (PollErrorView::NonZero { code: Some(code), stderr: why }).told() == "command failed (code="@
            + ("Some("@ + crate::text::signed_decimal(code as int) + ")"@) + ("): "@ + why),
{
}

/// The id of a device tells its key's digest from every other, in sixty-four
/// characters where the digest has thirty-two bytes.
pub proof fn ids_tell_devices_apart(a: Seq<u8>, b: Seq<u8>)
    ensures
        device_id_for(a) == device_id_for(b) ==> sha256_digest(a) == sha256_digest(b),
        sha256_digest(a).len() == 32 ==> device_id_for(a).len() == 64,
{
    hex_tells_bytes_apart(sha256_digest(a), sha256_digest(b));
}

/// What was written is what is read; what cannot be read, and what was never
/// written, is a first start.
pub proof fn state_is_read_as_written(s: UiStateView, text: Seq<char>, v: JsonView)
    ensures
        parsed(text) == Ok::<JsonView, Seq<char>>(state_json(s)) ==> stored_state(Some(text)) == s,
        ({
            let first = stored_state(None);
            &&& first.tab is None
            &&& first.selected_agent is None
            &&& first.active_session_key is None
            &&& first.window is None
            &&& first.settings.gateway_url is None
            &&& first.settings.mode is None
        }),
        parsed(text) is Err ==> stored_state(Some(text)) == stored_state(None),
        parsed(text) == Ok::<JsonView, Seq<char>>(v) && state_of(v) is None ==> stored_state(
            Some(text),
        ) == stored_state(None),
{
    state_round_trip(s);
}

} // verus!
