use cooplan_definition_consumer::config::consumer_config::{
    config_deserialize_failure, config_read_failure, ConsumerConfig,
};
use cooplan_definition_consumer::error::ErrorKind;
use cooplan_definition_consumer::storage::definition_request_dispatch::{
    channel_failure, token_acquisition_failure, try_prepare,
};
use cooplan_definition_consumer::storage::init::dispatch_instance_ids;
use cooplan_lapin_wrapper::config::amqp_connect_config::AmqpConnectConfig;

fn config(instances: u16, margin: u64, boundary: usize) -> ConsumerConfig {
    let connect = AmqpConnectConfig::new(
        "amqp://localhost:5672".to_string(),
        lapin::ConnectionProperties::default(),
        lapin::tcp::OwnedTLSConfig::default(),
    );
    ConsumerConfig::new(connect, instances, margin, boundary)
}

#[test]
fn getters_give_back_the_settings() {
    let c = config(3, 30, 128);
    assert_eq!(c.concurrent_request_dispatch_instances(), 3);
    assert_eq!(c.token_expiration_margin_in_seconds(), 30);
    assert_eq!(c.request_boundary(), 128);
    let connect = c.owned_amqp_connect_config();
    assert_eq!(connect.uri(), "amqp://localhost:5672");
}

#[test]
fn config_failures_carry_their_prefix() {
    let e = config_read_failure("missing");
    assert_eq!(e.kind(), ErrorKind::AutoConfigFailure);
    assert_eq!(e.message, "failed to read config file: missing");
    let e = config_deserialize_failure("expected value at line 1 column 1");
    assert_eq!(e.kind(), ErrorKind::AutoConfigFailure);
    assert_eq!(
        e.message,
        "failed to deserialize config file's content: expected value at line 1 column 1"
    );
}

#[test]
fn dispatch_ids_are_numbered_from_zero() {
    let ids = dispatch_instance_ids(&config(12, 5, 1));
    assert_eq!(ids.len(), 12);
    assert_eq!(ids[0], "definition_request_dispatch-0");
    assert_eq!(ids[9], "definition_request_dispatch-9");
    assert_eq!(ids[10], "definition_request_dispatch-10");
    assert_eq!(ids[11], "definition_request_dispatch-11");
}

#[test]
fn no_dispatch_when_none_asked() {
    assert!(dispatch_instance_ids(&config(0, 5, 1)).is_empty());
}

#[test]
fn dispatch_ids_are_distinct_up_to_the_largest_count() {
    let ids = dispatch_instance_ids(&config(u16::MAX, 5, 1));
    assert_eq!(ids.len(), u16::MAX as usize);
    assert_eq!(ids[65534], "definition_request_dispatch-65534");
    assert_eq!(ids[100], "definition_request_dispatch-100");
    let mut sorted = ids.clone();
    sorted.sort();
    sorted.dedup();
    assert_eq!(sorted.len(), ids.len());
}

#[test]
fn preparing_keeps_the_margin() {
    let prepared = try_prepare(config(2, 42, 8));
    let (_wrapper, margin) = prepared.ok().unwrap();
    assert_eq!(margin, 42);
}

#[test]
fn dispatch_setup_failures() {
    let e = token_acquisition_failure("denied");
    assert_eq!(e.kind(), ErrorKind::InternalFailure);
    assert_eq!(e.message, "failed to get token: denied");
    let e = channel_failure("closed");
    assert_eq!(e.kind(), ErrorKind::InternalFailure);
    assert_eq!(
        e.message,
        "failed to get channel from connection to definition provider: closed"
    );
}

#[test]
fn cloned_settings_keep_their_values() {
    let c = config(4, 9, 16);
    let copy = c.clone();
    assert_eq!(copy.concurrent_request_dispatch_instances(), 4);
    assert_eq!(copy.token_expiration_margin_in_seconds(), 9);
    assert_eq!(copy.request_boundary(), 16);
    assert_eq!(copy.owned_amqp_connect_config().uri(), "amqp://localhost:5672");
}
