use dns_setter::domain::{AppState, DnsOperation, DnsProvider, DnsState, OperationResult, ProviderKind};
use dns_setter::model::{
    dns_state_from_servers, DnsSetterModel, MonitorLevel, Tone, MONITOR_HISTORY_CAPACITY,
};

fn strings(v: &[&str]) -> Vec<String> {
    v.iter().map(|s| s.to_string()).collect()
}

#[test]
fn new_model_defaults() {
    let m = DnsSetterModel::new();
    assert_eq!(m.adapter, None);
    assert!(m.dns.is_empty());
    assert_eq!(m.app_state, AppState::Idle);
    assert_eq!(m.selected_provider, DnsProvider::electro());
    assert_eq!(m.dns_state, DnsState::NoDns);
    assert_eq!(m.ping_value, 0);
    assert!(m.ping_history.is_empty());
    assert!(!m.show_second_window && !m.show_clear_confirmation && !m.show_custom_dns_window);
}

#[test]
fn dns_state_classification() {
    assert_eq!(dns_state_from_servers(&Vec::new()), DnsState::NoDns);
    assert_eq!(dns_state_from_servers(&strings(&["via dhcp"])), DnsState::Dhcp);
    assert_eq!(
        dns_state_from_servers(&strings(&["8.8.8.8"])),
        DnsState::Static(strings(&["8.8.8.8"]))
    );
    assert_eq!(
        dns_state_from_servers(&strings(&["dhcp", "1.1.1.1"])),
        DnsState::Static(strings(&["dhcp", "1.1.1.1"]))
    );
}

#[test]
fn operation_lifecycle() {
    let mut m = DnsSetterModel::new();
    m.begin_operation(Some("Ethernet".to_string()));
    assert_eq!(m.app_state, AppState::Processing);
    assert_eq!(m.adapter, Some("Ethernet".to_string()));
    let refresh = m.handle_operation_result(OperationResult::Success("done".to_string()));
    assert!(refresh);
    assert_eq!(m.app_state, AppState::Success("done".to_string()));
    m.update_dns(strings(&["8.8.8.8", "1.1.1.1"]));
    assert_eq!(m.dns_state, DnsState::Static(strings(&["8.8.8.8", "1.1.1.1"])));
    assert!(!m.handle_operation_result(OperationResult::Error("e".to_string())));
    assert_eq!(m.app_state, AppState::Error("e".to_string()));
    assert!(!m.handle_operation_result(OperationResult::Warning("w".to_string())));
    assert_eq!(m.app_state, AppState::Warning("w".to_string()));
}

#[test]
fn success_without_adapter_needs_no_refresh() {
    let mut m = DnsSetterModel::new();
    m.begin_operation(None);
    assert!(!m.handle_operation_result(OperationResult::Success("x".to_string())));
}

#[test]
fn ping_readings_keep_last_fifteen() {
    let mut m = DnsSetterModel::new();
    for ms in 1..=20u64 {
        m.record_ping(ms);
        assert!(m.ping_history.len() <= MONITOR_HISTORY_CAPACITY);
    }
    assert_eq!(m.ping_value, 20);
    assert_eq!(Vec::from(m.ping_history.clone()), (6..=20u64).collect::<Vec<u64>>());
    m.set_ping_monitor_open(false);
    assert_eq!(m.ping_value, 0);
    assert!(m.ping_history.is_empty());
    assert!(!m.show_second_window);
    m.set_ping_monitor_open(true);
    assert!(m.show_second_window);
}

#[test]
fn ping_monitor_levels_and_text() {
    let mut m = DnsSetterModel::new();
    assert_eq!(m.ping_monitor_level(), MonitorLevel::NoReply);
    m.record_ping(50);
    assert_eq!(m.ping_monitor_level(), MonitorLevel::Good);
    assert_eq!(m.ping_text(), "50 ms");
    m.record_ping(150);
    assert_eq!(m.ping_monitor_level(), MonitorLevel::Fair);
    m.record_ping(200);
    assert_eq!(m.ping_monitor_level(), MonitorLevel::Poor);
}

#[test]
fn chart_scale() {
    let mut m = DnsSetterModel::new();
    assert!(m.chart_bounds().is_none());
    m.record_ping(30);
    m.record_ping(40);
    let b = m.chart_bounds().unwrap();
    assert_eq!((b.min, b.max, b.range), (30, 100, 70));
    m.record_ping(250);
    let b = m.chart_bounds().unwrap();
    assert_eq!((b.min, b.max, b.range), (30, 250, 220));
    let mut m = DnsSetterModel::new();
    m.record_ping(100);
    let b = m.chart_bounds().unwrap();
    assert_eq!((b.min, b.max, b.range), (100, 100, 1));
}

#[test]
fn provider_options_and_selection() {
    let mut m = DnsSetterModel::new();
    m.custom_primary = "8.8.8.8".to_string();
    m.custom_secondary = "8.8.4.4".to_string();
    let names: Vec<&str> = m.provider_options().iter().map(|p| p.display_name()).collect();
    assert_eq!(names, vec!["Electro", "Radar", "Shekan", "Bogzar", "Quad9", "Custom"]);
    for i in 0..6 {
        m.select_provider(i);
        assert_eq!(m.selected_index(), i);
        assert!(m.is_option_selected(i));
        assert_eq!(m.show_custom_dns_window, i == 5);
    }
    assert_eq!(m.selected_provider.provider_kind(), ProviderKind::Custom);
    assert_eq!(
        m.selected_provider.get_servers(),
        ("8.8.8.8".to_string(), "8.8.4.4".to_string())
    );
    m.custom_primary = "9.9.9.9".to_string();
    m.set_custom_window_open(false);
    assert!(!m.show_custom_dns_window);
    assert_eq!(m.selected_provider.get_servers().0, "9.9.9.9");
    m.clear_custom_inputs();
    m.sync_custom_provider();
    assert_eq!(m.selected_provider.get_servers(), (String::new(), String::new()));
}

#[test]
fn sync_leaves_builtin_provider_alone() {
    let mut m = DnsSetterModel::new();
    m.select_provider(2);
    m.custom_primary = "1.1.1.1".to_string();
    m.sync_custom_provider();
    assert_eq!(m.selected_provider, DnsProvider::shekan());
}

#[test]
fn buttons_and_confirmation() {
    let mut m = DnsSetterModel::new();
    assert_eq!(m.set_button_label(), "Set Electro DNS");
    assert_eq!(m.set_operation(), DnsOperation::SetDns(DnsProvider::electro()));
    m.request_clear();
    assert!(m.show_clear_confirmation);
    m.cancel_clear();
    assert!(!m.show_clear_confirmation);
    m.request_clear();
    assert_eq!(m.confirm_clear(), DnsOperation::Clear);
    assert!(!m.show_clear_confirmation);
}

#[test]
fn status_card() {
    let mut m = DnsSetterModel::new();
    let r = m.status_report();
    assert_eq!(r.tone, Tone::Bad);
    assert_eq!(r.headline, "❌ No DNS Configuration");
    m.update_dns(strings(&["dhcp"]));
    let r = m.status_report();
    assert_eq!((r.tone, r.headline.as_str()), (Tone::Caution, "🔄 DHCP DNS Configuration"));
    m.update_dns(strings(&["8.8.8.8", "1.1.1.1"]));
    let r = m.status_report();
    assert_eq!(r.tone, Tone::Good);
    assert_eq!(r.headline, "Static DNS Configuration 🔒");
    assert_eq!(r.primary, Some("Primary: 8.8.8.8".to_string()));
    assert_eq!(r.secondary, Some("Secondary: 1.1.1.1".to_string()));
    m.dns_state = DnsState::Static(Vec::new());
    let r = m.status_report();
    assert_eq!(r.primary, Some("Primary: None".to_string()));
    assert_eq!(r.secondary, None);
}

#[test]
fn app_state_lines() {
    let mut m = DnsSetterModel::new();
    assert_eq!(m.app_state_line(), None);
    m.app_state = AppState::Processing;
    assert_eq!(m.app_state_line(), Some((Tone::Neutral, "Processing DNS operation...".to_string())));
    m.app_state = AppState::Success("ok".to_string());
    assert_eq!(m.app_state_line(), Some((Tone::Good, "✅ ok".to_string())));
    m.app_state = AppState::Error("bad".to_string());
    assert_eq!(m.app_state_line(), Some((Tone::Bad, "❌ bad".to_string())));
    m.app_state = AppState::Warning("hm".to_string());
    assert_eq!(m.app_state_line(), Some((Tone::Caution, "⚠️ hm".to_string())));
}
