//! What is kept between launches.
use periclaw::app::NavItem;
use periclaw::json::Json;
use periclaw::net::fields::number_value;
use periclaw::ui_state::{
    load, nav_from_str, nav_to_str, save, Settings, UiState, WindowState,
};

#[test]
fn nav_round_trip_covers_all_variants() {
    for item in [
        NavItem::Overview,
        NavItem::Chat,
        NavItem::Agents,
        NavItem::Sessions,
        NavItem::Logs,
        NavItem::Settings,
    ] {
        let s = nav_to_str(item);
        assert_eq!(nav_from_str(s), Some(item), "round-trip failed for {s}");
    }
}

#[test]
fn nav_from_str_rejects_unknown() {
    assert_eq!(nav_from_str(""), None);
    assert_eq!(nav_from_str("metrics"), None);
    assert_eq!(nav_from_str("Overview"), None);
}

#[test]
fn empty_state_serializes_to_empty_object() {
    let raw = save(&UiState::default());
    assert_eq!(raw, "{}");
}

#[test]
fn round_trip_preserves_fields() {
    let original = UiState {
        tab: Some("chat".to_string()),
        selected_agent: Some("sebastian".to_string()),
        active_session_key: Some("agent:sebastian:abc123".to_string()),
        window: Some(WindowState {
            width: "1440.0".to_string(),
            height: "900.0".to_string(),
            position: Some(("120.0".to_string(), "80.0".to_string())),
        }),
        settings: Settings {
            gateway_url: Some("wss://gw/".to_string()),
            mode: None,
        },
    };
    let raw = save(&original);
    let parsed = load(Some(&raw));
    assert_eq!(parsed.tab.as_deref(), Some("chat"));
    assert_eq!(parsed.selected_agent.as_deref(), Some("sebastian"));
    assert_eq!(
        parsed.active_session_key.as_deref(),
        Some("agent:sebastian:abc123"),
    );
    assert_eq!(parsed.settings.gateway_url.as_deref(), Some("wss://gw/"));
    let w = parsed.window.unwrap();
    let number = |s: &str| s.parse::<f32>().unwrap();
    assert_eq!(number(&w.width), 1440.0);
    assert_eq!(number(&w.height), 900.0);
    let (x, y) = w.position.unwrap();
    assert_eq!((number(&x), number(&y)), (120.0, 80.0));
}

#[test]
fn missing_fields_fall_back_to_default() {
    let raw = r#"{"tab":"logs"}"#;
    let parsed = load(Some(raw));
    assert_eq!(parsed.tab.as_deref(), Some("logs"));
    assert!(parsed.selected_agent.is_none());
    assert!(parsed.window.is_none());
}

#[test]
fn a_damaged_file_counts_as_none() {
    assert_eq!(load(None), UiState::default());
    assert_eq!(load(Some("{\"tab\":")), UiState::default());
    assert_eq!(load(Some("{\"tab\": 3}")), UiState::default());
}

#[test]
fn the_file_is_indented() {
    let state = UiState {
        tab: Some("logs".to_string()),
        ..UiState::default()
    };
    assert_eq!(save(&state), "{\n  \"tab\": \"logs\"\n}");
}

#[test]
fn state_reads_from_a_value() {
    let v = Json::from_text(r#"{"window":{"width":800.5,"height":600},"future":1}"#).unwrap();
    let state = UiState::decode(&v).unwrap();
    let w = state.window.unwrap();
    assert_eq!((w.width.as_str(), w.height.as_str()), ("800.5", "600"));
    assert!(w.position.is_none());
}

#[test]
fn whole_lengths_come_back_as_they_are() {
    for (w, h) in [
        ("1280.0", "800.0"),
        ("0.0", "-3.0"),
        ("1000000000.0", "-1000000000.0"),
        ("999999999.0", "123456789.0"),
        ("1280", "-3"),
        ("800.5", "9223372036854775807"),
    ] {
        let state = UiState {
            tab: Some("logs".to_string()),
            window: Some(WindowState {
                width: w.to_string(),
                height: h.to_string(),
                position: Some(("-9223372036854775808".to_string(), "12".to_string())),
            }),
            ..UiState::default()
        };
        assert_eq!(load(Some(&save(&state))), state);
    }
}

#[test]
fn numbers_keep_their_text() {
    assert!(matches!(number_value("1280"), Json::Int(1280)));
    assert!(matches!(number_value("-7"), Json::Int(-7)));
    for text in ["1280.0", "007", "-0", "+1", "", "9223372036854775808", "1e3"] {
        assert!(matches!(number_value(text), Json::Num(t) if t == text), "{text}");
    }
}

#[test]
fn lengths_are_saved_with_their_decimal() {
    let state = UiState {
        window: Some(WindowState {
            width: "1440.0".to_string(),
            height: "900.5".to_string(),
            position: None,
        }),
        ..UiState::default()
    };
    let raw = save(&state);
    assert!(raw.contains("\"width\": 1440.0"), "{raw}");
    assert!(raw.contains("\"height\": 900.5"), "{raw}");
}
