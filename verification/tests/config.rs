use durable_ws_client::config::{Config, ConfigBuilder};
use std::time::Duration;
use tokio_tungstenite::tungstenite::protocol::WebSocketConfig;

fn assert_defaults(config: Config) {
    assert!(config.ws_config().is_none());
    assert_eq!(config.connect_timeout(), Duration::from_secs(10));
    assert_eq!(config.close_timeout(), Duration::from_secs(10));
    assert_eq!(config.channel_size(), 32);
    assert!(!config.disable_nagle());
}

#[test]
fn default_config() {
    assert_defaults(Config::default());
}

#[test]
fn untouched_builder_builds_the_default_config() {
    assert_defaults(ConfigBuilder::new().build());
    assert_defaults(ConfigBuilder::default().build());
}

#[test]
fn builder_sets_every_setting() {
    let ws_config = WebSocketConfig {
        max_message_size: Some(7),
        ..WebSocketConfig::default()
    };
    let config = ConfigBuilder::new()
        .ws_config(ws_config)
        .connect_timeout(Duration::from_millis(1500))
        .close_timeout(Duration::from_secs(3))
        .channel_size(1)
        .disable_nagle(true)
        .build();
    assert_eq!(config.ws_config().unwrap().max_message_size, Some(7));
    assert_eq!(config.connect_timeout(), Duration::from_millis(1500));
    assert_eq!(config.close_timeout(), Duration::from_secs(3));
    assert_eq!(config.channel_size(), 1);
    assert!(config.disable_nagle());
}

#[test]
fn builder_leaves_other_settings_alone() {
    let mut builder = ConfigBuilder::new();
    builder.connect_timeout(Duration::from_secs(1));
    let first = builder.build();
    builder.channel_size(0);
    let second = builder.build();
    assert_eq!(first.channel_size(), 32);
    assert_eq!(second.channel_size(), 0);
    assert_eq!(second.connect_timeout(), Duration::from_secs(1));
    assert_eq!(second.close_timeout(), Duration::from_secs(10));
    assert!(second.ws_config().is_none());
    assert!(!second.disable_nagle());
}

#[test]
fn last_value_set_counts() {
    let mut builder = ConfigBuilder::new();
    builder.disable_nagle(true).disable_nagle(false).channel_size(4).channel_size(5);
    assert!(!builder.build().disable_nagle());
    assert_eq!(builder.build().channel_size(), 5);
}
