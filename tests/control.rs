use hue_cycle::config::{Config, HueConfig, Location};
use hue_cycle::pairing::{choose_bridge, PairingStep, Registration, LINK_RETRY_SECONDS};
use hue_cycle::schedule::{next_deadline, sleep_until, CYCLE_MILLIS};

#[test]
fn pairing_steps() {
    match Config::get_hue_config("10.0.0.2", Registration::Registered("user1".to_string())) {
        PairingStep::Paired(c) => {
            assert_eq!(c.bridge_ip, "10.0.0.2");
            assert_eq!(c.bridge_password, "user1");
        }
        _ => panic!("expected pairing to finish"),
    }
    assert!(matches!(
        Config::get_hue_config("10.0.0.2", Registration::LinkButtonNotPressed),
        PairingStep::RetryAfter(5)
    ));
    assert_eq!(LINK_RETRY_SECONDS, 5);
    assert!(matches!(Config::get_hue_config("10.0.0.2", Registration::Failed), PairingStep::GiveUp));
}

#[test]
fn bridge_choice_is_last_found() {
    assert_eq!(choose_bridge(&vec![]), None);
    let ips = vec!["10.0.0.1".to_string(), "10.0.0.7".to_string()];
    assert_eq!(choose_bridge(&ips), Some("10.0.0.7".to_string()));
}

#[test]
fn default_hue_config() {
    let c = HueConfig::default();
    assert_eq!(c.bridge_ip, HueConfig::default_bridge_ip());
    assert_eq!(c.bridge_ip, "192.168.178.50");
    assert_eq!(c.bridge_password, HueConfig::default_bridge_password());
}

#[test]
fn default_location() {
    let l = Location::default();
    assert_eq!(l.long, Location::default_long());
    assert_eq!(l.lat, 521_561_113);
}

#[test]
fn cadence() {
    assert_eq!(next_deadline(1000), 1000 + CYCLE_MILLIS);
    assert_eq!(next_deadline(u64::MAX - 1), u64::MAX);
    assert_eq!(sleep_until(16_000, 1_000), 15_000);
    assert_eq!(sleep_until(16_000, 16_000), 0);
    assert_eq!(sleep_until(16_000, 20_000), 0);
}
