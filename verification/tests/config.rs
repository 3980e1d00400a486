use actor_ot::config::{OTActorReceiverConfig, OTActorSenderConfig};
use actor_ot::error::ConfigError;

#[test]
fn sender_config_builds_with_all_fields() {
    let config = OTActorSenderConfig::builder()
        .id("alice")
        .initial_count(50)
        .build()
        .unwrap();
    assert_eq!(config.id, "alice");
    assert_eq!(config.initial_count, 50);
    assert!(!config.committed);
}

#[test]
fn sender_config_committed_flag() {
    let config = OTActorSenderConfig::builder()
        .id("alice")
        .initial_count(50)
        .committed()
        .build()
        .unwrap();
    assert!(config.committed);
}

#[test]
fn sender_config_missing_id_fails() {
    let result = OTActorSenderConfig::builder().initial_count(50).build();
    assert_eq!(result.unwrap_err(), ConfigError::MissingId);
}

#[test]
fn sender_config_missing_count_fails() {
    let result = OTActorSenderConfig::builder().id("alice").build();
    assert_eq!(result.unwrap_err(), ConfigError::MissingInitialCount);
}

#[test]
fn sender_config_zero_count_fails() {
    let result = OTActorSenderConfig::builder()
        .id("alice")
        .initial_count(0)
        .build();
    assert_eq!(result.unwrap_err(), ConfigError::InvalidInitialCount);
}

#[test]
fn receiver_config_builds_with_all_fields() {
    let config = OTActorReceiverConfig::builder()
        .id("bob")
        .initial_count(7)
        .build()
        .unwrap();
    assert_eq!(config.id, "bob");
    assert_eq!(config.initial_count, 7);
    assert!(!config.committed);
}

#[test]
fn receiver_config_missing_id_fails() {
    let result = OTActorReceiverConfig::builder().initial_count(7).build();
    assert_eq!(result.unwrap_err(), ConfigError::MissingId);
}

#[test]
fn receiver_config_zero_count_fails() {
    let result = OTActorReceiverConfig::builder()
        .id("bob")
        .initial_count(0)
        .build();
    assert_eq!(result.unwrap_err(), ConfigError::InvalidInitialCount);
}
