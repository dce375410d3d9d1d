use mavlink_to_kafka::kafka::{consumer_client_config, producer_client_config};
use mavlink_to_kafka::properties::PropertyMap;

#[test]
fn producer_config_has_brokers_and_timeout() {
    let config = producer_client_config("kafka1:9092,kafka2:9092", &PropertyMap::new());
    assert_eq!(config.get("bootstrap.servers"), Some("kafka1:9092,kafka2:9092"));
    assert_eq!(config.get("message.timeout.ms"), Some("5000"));
    assert_eq!(config.config_map().len(), 2);
}

#[test]
fn producer_extra_properties_override_and_extend() {
    let mut extra = PropertyMap::new();
    extra.insert("message.timeout.ms".to_string(), "100".to_string());
    extra.insert("linger.ms".to_string(), "5".to_string());
    let config = producer_client_config("localhost:9092", &extra);
    assert_eq!(config.get("bootstrap.servers"), Some("localhost:9092"));
    assert_eq!(config.get("message.timeout.ms"), Some("100"));
    assert_eq!(config.get("linger.ms"), Some("5"));
    assert_eq!(config.config_map().len(), 3);
}

#[test]
fn consumer_config_has_group_and_offset_reset() {
    let mut extra = PropertyMap::new();
    extra.insert("auto.offset.reset".to_string(), "earliest".to_string());
    let config = consumer_client_config("localhost:9092", "my-group", &extra);
    assert_eq!(config.get("bootstrap.servers"), Some("localhost:9092"));
    assert_eq!(config.get("group.id"), Some("my-group"));
    assert_eq!(config.get("auto.offset.reset"), Some("earliest"));
    assert_eq!(config.config_map().len(), 3);
}

#[test]
fn consumer_config_reads_latest_by_default() {
    let config = consumer_client_config("b:1", "g", &PropertyMap::new());
    assert_eq!(config.get("auto.offset.reset"), Some("latest"));
}
