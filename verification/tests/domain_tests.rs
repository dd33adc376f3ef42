use dns_setter::domain::{AppState, DnsOperation, DnsProvider, DnsState, ProviderKind};

fn servers(p: &DnsProvider) -> (String, String) {
    p.get_servers()
}

#[test]
fn electro_servers() {
    let p = DnsProvider::electro();
    assert_eq!(
        servers(&p),
        ("78.157.42.100".to_string(), "78.157.42.101".to_string())
    );
    assert_eq!(p.display_name(), "Electro");
    assert_eq!(p.provider_kind(), ProviderKind::Electro);
}

#[test]
fn radar_servers() {
    let p = DnsProvider::radar();
    assert_eq!(servers(&p), ("10.202.10.10".to_string(), "10.202.10.11".to_string()));
    assert_eq!(p.display_name(), "Radar");
}

#[test]
fn shekan_servers() {
    let p = DnsProvider::shekan();
    assert_eq!(servers(&p), ("178.22.122.100".to_string(), "185.51.200.2".to_string()));
    assert_eq!(p.display_name(), "Shekan");
}

#[test]
fn bogzar_servers() {
    let p = DnsProvider::bogzar();
    assert_eq!(servers(&p), ("185.55.226.26".to_string(), "185.55.225.25".to_string()));
    assert_eq!(p.display_name(), "Bogzar");
}

#[test]
fn quad9_servers() {
    let p = DnsProvider::quad9();
    assert_eq!(servers(&p), ("9.9.9.9".to_string(), "149.112.112.112".to_string()));
    assert_eq!(p.display_name(), "Quad9");
}

#[test]
fn custom_servers_are_the_given_ones() {
    let p = DnsProvider::custom("8.8.8.8".to_string(), "1.1.1.1".to_string());
    assert_eq!(servers(&p), ("8.8.8.8".to_string(), "1.1.1.1".to_string()));
    assert_eq!(p.display_name(), "Custom");
    assert_eq!(p.provider_kind(), ProviderKind::Custom);
}

#[test]
fn default_provider_is_electro() {
    assert_eq!(DnsProvider::default(), DnsProvider::electro());
}

#[test]
fn clone_keeps_the_provider() {
    let p = DnsProvider::custom("1.2.3.4".to_string(), "".to_string());
    assert_eq!(p.clone(), p);
}

#[test]
fn defaults_of_states() {
    assert_eq!(AppState::default(), AppState::Idle);
    assert_eq!(DnsState::default(), DnsState::NoDns);
    assert_ne!(DnsOperation::Clear, DnsOperation::Test);
}
