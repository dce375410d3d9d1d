use mavlink_to_kafka::config::{
    resolve_config_file, AppConfig, CommandConfig, LOCAL_CONFIG_FILE, SYSTEM_CONFIG_FILE,
};
use mavlink_to_kafka::properties::PropertyMap;

#[test]
fn test_default_config() {
    let config = AppConfig::default();
    assert_eq!(config.mavlink.connection_string, "udpin:0.0.0.0:14550");
    assert_eq!(config.kafka.brokers, "localhost:9092");
    assert_eq!(config.kafka.topic_prefix, "mavlink");
    assert_eq!(config.logging.level, "info");
    assert!(config.kafka.producer_properties.is_empty());
}

#[test]
fn test_default_command_config() {
    let config = AppConfig::default();
    assert!(!config.kafka.commands.enabled);
    assert_eq!(config.kafka.commands.command_topic, "mavlink.commands");
    assert_eq!(config.kafka.commands.consumer_group_id, "mavlink-to-kafka");
    assert!(config.kafka.commands.consumer_properties.is_empty());
}

#[test]
fn command_config_default_matches_app_default() {
    let commands = CommandConfig::default();
    assert!(!commands.enabled);
    assert_eq!(commands.command_topic, "mavlink.commands");
    assert_eq!(commands.consumer_group_id, "mavlink-to-kafka");
    assert_eq!(commands.consumer_properties.len(), 0);
}

#[test]
fn explicit_config_path_wins() {
    let chosen = resolve_config_file(Some("/tmp/a.toml"), Some("/tmp/b.toml"), true, true);
    assert_eq!(chosen.as_deref(), Some("/tmp/a.toml"));
}

#[test]
fn config_path_from_environment_comes_second() {
    let chosen = resolve_config_file(None, Some("/tmp/b.toml"), true, true);
    assert_eq!(chosen.as_deref(), Some("/tmp/b.toml"));
}

#[test]
fn local_config_file_before_system_file() {
    assert_eq!(resolve_config_file(None, None, true, true).as_deref(), Some(LOCAL_CONFIG_FILE));
    assert_eq!(resolve_config_file(None, None, true, false).as_deref(), Some("config.toml"));
    assert_eq!(
        resolve_config_file(None, None, false, true).as_deref(),
        Some("/etc/mavlink-to-kafka/config.toml")
    );
    assert_eq!(SYSTEM_CONFIG_FILE, "/etc/mavlink-to-kafka/config.toml");
}

#[test]
fn no_config_file_when_none_exists() {
    assert_eq!(resolve_config_file(None, None, false, false), None);
}

#[test]
fn property_map_insert_and_get() {
    let mut props = PropertyMap::new();
    assert!(props.is_empty());
    props.insert("linger.ms".to_string(), "5".to_string());
    props.insert("compression.type".to_string(), "lz4".to_string());
    assert_eq!(props.len(), 2);
    assert!(!props.is_empty());
    assert_eq!(props.get(&"linger.ms".to_string()).map(|s| s.as_str()), Some("5"));
    assert_eq!(props.get(&"compression.type".to_string()).map(|s| s.as_str()), Some("lz4"));
    assert_eq!(props.get(&"acks".to_string()), None);
}

#[test]
fn property_map_insert_replaces_value() {
    let mut props = PropertyMap::new();
    props.insert("linger.ms".to_string(), "5".to_string());
    props.insert("linger.ms".to_string(), "10".to_string());
    assert_eq!(props.len(), 1);
    assert_eq!(props.get(&"linger.ms".to_string()).map(|s| s.as_str()), Some("10"));
    let (k, v) = props.entry_at(0);
    assert_eq!(k, "linger.ms");
    assert_eq!(v, "10");
}
