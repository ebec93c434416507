use network_monitor::communication::{AlertLevel, Communication};
use network_monitor::registration::{RegistrationForm, AGENT_CONFIG_PATH};

#[test]
fn new_form_offers_dlp_and_edr() {
    let f = RegistrationForm::new("linux".to_string());
    assert_eq!(f.os, "linux");
    assert_eq!(f.features, vec!["DLP".to_string(), "EDR".to_string()]);
    assert!(f.name.is_empty());
    assert!(f.registration_status.is_none());
}

#[test]
fn registration_follows_the_saved_config() {
    let exists = std::path::Path::new(AGENT_CONFIG_PATH).exists();
    assert_eq!(RegistrationForm::is_registered(), exists);
}

#[test]
fn communication_keeps_its_endpoint() {
    let c = Communication::new("d".to_string(), "https://example.invalid/alerts".to_string());
    assert_eq!(c.device_id, "d");
    assert_eq!(c.api_endpoint, "https://example.invalid/alerts");
    assert_ne!(AlertLevel::Low, AlertLevel::Critical);
}
