use valet_monitor::audit::{select_recent_events, AuditEvent};
use valet_monitor::health::{classify_health, HealthLevel};
use valet_monitor::permissions::preference_pane_url;
use valet_monitor::tray::{tray_icon_asset, tray_title_fallback};

fn event(command: &str) -> AuditEvent {
    AuditEvent {
        event_type: "command_executed".to_string(),
        command: command.to_string(),
        reason: None,
        exit_code: Some(0),
        timestamp: "2024-01-01T00:00:00Z".to_string(),
    }
}

#[test]
fn classify_health_recognizes_the_literals() {
    assert!(classify_health(&Some("good".to_string())) == HealthLevel::Good);
    assert!(classify_health(&Some("warning".to_string())) == HealthLevel::Warning);
    assert!(classify_health(&Some("critical".to_string())) == HealthLevel::Critical);
    assert!(classify_health(&Some("unknown".to_string())) == HealthLevel::Unknown);
    assert!(classify_health(&Some("GOOD".to_string())) == HealthLevel::Unknown);
    assert!(classify_health(&None) == HealthLevel::Unknown);
}

#[test]
fn health_as_text_round_trips() {
    for h in [
        HealthLevel::Good,
        HealthLevel::Warning,
        HealthLevel::Critical,
        HealthLevel::Unknown,
    ] {
        assert!(classify_health(&Some(h.as_text().to_string())) == h);
    }
}

#[test]
fn select_recent_events_keeps_the_tail() {
    let events: Vec<AuditEvent> = (0..5).map(|i| event(&format!("cmd{}", i))).collect();
    let recent = select_recent_events(events, Some(2));
    assert_eq!(recent.len(), 2);
    assert_eq!(recent[0].command, "cmd3");
    assert_eq!(recent[1].command, "cmd4");
}

#[test]
fn select_recent_events_default_limit_is_100() {
    let events: Vec<AuditEvent> = (0..150).map(|i| event(&format!("cmd{}", i))).collect();
    let recent = select_recent_events(events, None);
    assert_eq!(recent.len(), 100);
    assert_eq!(recent[0].command, "cmd50");
    assert_eq!(recent[99].command, "cmd149");
}

#[test]
fn select_recent_events_short_log_is_kept_whole() {
    let events: Vec<AuditEvent> = (0..3).map(|i| event(&format!("cmd{}", i))).collect();
    let recent = select_recent_events(events, Some(10));
    assert_eq!(recent.len(), 3);
    assert_eq!(recent[0].command, "cmd0");
}

#[test]
fn preference_pane_urls() {
    assert_eq!(
        preference_pane_url("privacy_microphone").unwrap(),
        "x-apple.systempreferences:com.apple.preference.security?Privacy_Microphone"
    );
    assert_eq!(
        preference_pane_url("privacy_full_disk_access").unwrap(),
        "x-apple.systempreferences:com.apple.preference.security?Privacy_AllFiles"
    );
    assert_eq!(
        preference_pane_url("privacy_accessibility").unwrap(),
        "x-apple.systempreferences:com.apple.preference.security?Privacy_Accessibility"
    );
    let err = preference_pane_url("privacy_camera").unwrap_err();
    assert_eq!(err, "Unknown preference pane: privacy_camera");
}

#[test]
fn tray_mappings() {
    assert_eq!(tray_icon_asset("good"), "icon-good.png");
    assert_eq!(tray_icon_asset("warning"), "icon-warning.png");
    assert_eq!(tray_icon_asset("critical"), "icon-critical.png");
    assert_eq!(tray_icon_asset("mystery"), "icon.png");

    assert_eq!(tray_title_fallback("good"), "");
    assert_eq!(tray_title_fallback("warning"), "\u{26a0}");
    assert_eq!(tray_title_fallback("critical"), "!");
    assert_eq!(tray_title_fallback("mystery"), "");
}
