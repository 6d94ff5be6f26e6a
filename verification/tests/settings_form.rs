use ping_meter::ping_data::PingData;
use ping_meter::settings::{Settings, DEFAULT_MAX_PLOT_POINTS, DEFAULT_PING_ADDRESS};
use ping_meter::settings_menu::{FieldCheck, SettingsMenu};

fn base() -> Settings<f32> {
    Settings::with_values(1.0, 3.0, 1.0)
}

fn form(address: &str, max: &str) -> SettingsMenu {
    let mut f = SettingsMenu::new();
    f.ping_address = address.to_string();
    f.max_plot_points = max.to_string();
    f
}

#[test]
fn default_values() {
    let s = base();
    assert_eq!(s.ping_address, "8.8.8.8");
    assert_eq!(DEFAULT_PING_ADDRESS, "8.8.8.8");
    assert_eq!(s.max_plot_points, 30);
    assert_eq!(DEFAULT_MAX_PLOT_POINTS, 30);
    assert!(!s.update);
    assert_eq!(s.ping_interval, 1.0);
    assert_eq!(s.ping_timeout, 3.0);
    assert_eq!(s.plot_aspect_ratio, 1.0);
}

#[test]
fn on_enabled_fills_the_form() {
    let mut s = base();
    s.ping_interval = 0.5;
    s.max_plot_points = 42;
    let mut f = SettingsMenu::new();
    f.error = "old".to_string();
    f.on_enabled(&s);
    assert_eq!(f.ping_interval, "0.5");
    assert_eq!(f.ping_timeout, "3");
    assert_eq!(f.ping_address, "8.8.8.8");
    assert_eq!(f.max_plot_points, "42");
    assert_eq!(f.plot_aspect_ratio, "1");
    assert_eq!(f.error, "");
}

#[test]
fn all_fields_valid() {
    let mut s = base();
    let mut f = form("1.1.1.1", "50");
    let ok = f.parse_inputs(&mut s, FieldCheck::Accepted(2.0), FieldCheck::Accepted(1.5), FieldCheck::Accepted(2.5));
    assert!(ok);
    assert_eq!(s.ping_address, "1.1.1.1");
    assert_eq!(s.ping_interval, 2.0);
    assert_eq!(s.ping_timeout, 1.5);
    assert_eq!(s.max_plot_points, 50);
    assert_eq!(s.plot_aspect_ratio, 2.5);
    assert!(!s.update);
}

#[test]
fn empty_address_is_rejected_first() {
    let mut s = base();
    let mut f = form("", "oops");
    let ok = f.parse_inputs(&mut s, FieldCheck::OutOfRange, FieldCheck::Accepted(1.0), FieldCheck::Accepted(1.0));
    assert!(!ok);
    assert_eq!(f.error, "Invalid ping address!");
    assert_eq!(s.ping_address, "8.8.8.8");
}

#[test]
fn interval_errors() {
    let mut s = base();
    let mut f = form("host", "10");
    assert!(!f.parse_inputs(&mut s, FieldCheck::OutOfRange, FieldCheck::Accepted(1.0), FieldCheck::Accepted(1.0)));
    assert_eq!(f.error, "Invalid ping interval! Must be greater than or equal to 0.1");
    // the address was taken before the interval failed
    assert_eq!(s.ping_address, "host");
    assert_eq!(s.ping_interval, 1.0);
    assert!(!f.parse_inputs(&mut s, FieldCheck::Unparsable("invalid float literal".to_string()), FieldCheck::Accepted(1.0), FieldCheck::Accepted(1.0)));
    assert_eq!(f.error, "Invalid ping interval! invalid float literal");
}

#[test]
fn timeout_errors_keep_earlier_fields() {
    let mut s = base();
    let mut f = form("host", "10");
    assert!(!f.parse_inputs(&mut s, FieldCheck::Accepted(0.2), FieldCheck::OutOfRange, FieldCheck::Accepted(1.0)));
    assert_eq!(f.error, "Invalid ping timeout! Must be greater than 0");
    assert_eq!(s.ping_interval, 0.2);
    assert_eq!(s.ping_timeout, 3.0);
    assert!(!f.parse_inputs(&mut s, FieldCheck::Accepted(0.2), FieldCheck::Unparsable("cannot parse float from empty string".to_string()), FieldCheck::Accepted(1.0)));
    assert_eq!(f.error, "Invalid ping timeout! cannot parse float from empty string");
}

#[test]
fn plot_size_errors() {
    let checks = || (FieldCheck::Accepted(1.0f32), FieldCheck::Accepted(1.0f32), FieldCheck::Accepted(1.0f32));
    for (text, msg) in [
        ("0", "Invalid max plot points! Must be between 1 and 100"),
        ("101", "Invalid max plot points! Must be between 1 and 100"),
        ("", "Invalid max plot points! cannot parse integer from empty string"),
        ("ten", "Invalid max plot points! invalid digit found in string"),
        ("-1", "Invalid max plot points! invalid digit found in string"),
        ("999999999999999999999", "Invalid max plot points! number too large to fit in target type"),
    ] {
        let mut s = base();
        let mut f = form("host", text);
        let (i, t, r) = checks();
        assert!(!f.parse_inputs(&mut s, i, t, r));
        assert_eq!(f.error, msg);
        assert_eq!(s.max_plot_points, 30);
    }
    let mut s = base();
    let mut f = form("host", "100");
    let (i, t, r) = checks();
    assert!(f.parse_inputs(&mut s, i, t, r));
    assert_eq!(s.max_plot_points, 100);
}

#[test]
fn aspect_ratio_errors_keep_everything_before() {
    let mut s = base();
    let mut f = form("host", "12");
    assert!(!f.parse_inputs(&mut s, FieldCheck::Accepted(0.3), FieldCheck::Accepted(0.4), FieldCheck::OutOfRange));
    assert_eq!(f.error, "Invalid plot aspect ratio! Must be greater than 0");
    assert_eq!(s.ping_address, "host");
    assert_eq!(s.ping_interval, 0.3);
    assert_eq!(s.ping_timeout, 0.4);
    assert_eq!(s.max_plot_points, 12);
    assert_eq!(s.plot_aspect_ratio, 1.0);
    assert!(!f.parse_inputs(&mut s, FieldCheck::Accepted(0.3), FieldCheck::Accepted(0.4), FieldCheck::Unparsable("invalid float literal".to_string())));
    assert_eq!(f.error, "Invalid plot aspect ratio! invalid float literal");
}

#[test]
fn apply_resets_samples_and_marks_update() {
    let mut s = base();
    let mut pd: PingData<f32> = PingData::new();
    pd.record(Some(3), 30, 3.0);
    let mut f = form("host", "20");
    f.error = "Invalid ping address!".to_string();
    assert!(f.apply(&mut s, &mut pd, FieldCheck::Accepted(1.0), FieldCheck::Accepted(1.0), FieldCheck::Accepted(1.0)));
    assert!(s.update);
    assert_eq!(f.error, "");
    assert!(pd.plot_points().is_empty());
    assert!(pd.stats().is_none());
}

#[test]
fn failed_apply_keeps_samples() {
    let mut s = base();
    let mut pd: PingData<f32> = PingData::new();
    pd.record(Some(3), 30, 3.0);
    let mut f = form("", "20");
    assert!(!f.apply(&mut s, &mut pd, FieldCheck::Accepted(1.0), FieldCheck::Accepted(1.0), FieldCheck::Accepted(1.0)));
    assert!(!s.update);
    assert_eq!(f.error, "Invalid ping address!");
    assert_eq!(pd.plot_points(), &vec![Some(3)]);
}

#[test]
fn error_label_shows_only_a_message() {
    let mut f = SettingsMenu::new();
    assert_eq!(f.error_label(), None);
    f.error = "Invalid ping address!".to_string();
    assert_eq!(f.error_label(), Some("Error: Invalid ping address!".to_string()));
}

#[test]
fn form_roundtrip_keeps_settings() {
    let mut s = base();
    s.ping_address = "example.org".to_string();
    s.max_plot_points = 77;
    let mut f = SettingsMenu::new();
    f.on_enabled(&s);
    let before_address = s.ping_address.clone();
    assert!(f.parse_inputs(&mut s, FieldCheck::Accepted(1.0), FieldCheck::Accepted(3.0), FieldCheck::Accepted(1.0)));
    assert_eq!(s.ping_address, before_address);
    assert_eq!(s.max_plot_points, 77);
}

#[test]
fn cloned_settings_are_equal() {
    let mut s = base();
    s.update = true;
    let c = s.clone();
    assert_eq!(c.ping_address, s.ping_address);
    assert_eq!(c.max_plot_points, s.max_plot_points);
    assert_eq!(c.update, s.update);
    assert_eq!(c.ping_interval, s.ping_interval);
}
