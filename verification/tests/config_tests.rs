use pcapstreamer::config::QueueConfig;
use pcapstreamer::options::KafkaOption;

fn opt(key: &str, value: &str) -> KafkaOption {
    KafkaOption { key: key.to_owned(), value: value.to_owned() }
}

#[test]
fn forces_client_identity_and_brokers() {
    let cfg = QueueConfig::new(vec![], "k1:9092,k2:9092".to_owned(), "packets".to_owned());
    assert_eq!(cfg.effective_value("client.id"), Some("pcapstreamer".to_owned()));
    assert_eq!(
        cfg.effective_value("bootstrap.servers"),
        Some("k1:9092,k2:9092".to_owned())
    );
    assert_eq!(cfg.topic, "packets");
    assert_eq!(cfg.servers, "k1:9092,k2:9092");
}

#[test]
fn later_duplicate_overrides_earlier() {
    let cfg = QueueConfig::new(
        vec![opt("acks", "1"), opt("compression.type", "lz4"), opt("acks", "all")],
        "k1:9092".to_owned(),
        "packets".to_owned(),
    );
    assert_eq!(cfg.effective_value("acks"), Some("all".to_owned()));
    assert_eq!(cfg.effective_value("compression.type"), Some("lz4".to_owned()));
}

#[test]
fn forced_identity_overrides_supplied_option() {
    let cfg = QueueConfig::new(
        vec![opt("client.id", "someone-else")],
        "k1:9092".to_owned(),
        "packets".to_owned(),
    );
    assert_eq!(cfg.effective_value("client.id"), Some("pcapstreamer".to_owned()));
}

#[test]
fn unknown_key_has_no_value() {
    let cfg = QueueConfig::new(vec![], "k1:9092".to_owned(), "packets".to_owned());
    assert_eq!(cfg.effective_value("linger.ms"), None);
}

#[test]
fn keeps_supplied_options_in_order() {
    let cfg = QueueConfig::new(
        vec![opt("acks", "all"), opt("linger.ms", "5")],
        "k1:9092".to_owned(),
        "packets".to_owned(),
    );
    assert_eq!(cfg.entries.len(), 4);
    assert_eq!(cfg.entries[0].key, "acks");
    assert_eq!(cfg.entries[1].key, "linger.ms");
    assert_eq!(cfg.entries[2].key, "client.id");
    assert_eq!(cfg.entries[3].key, "bootstrap.servers");
}
