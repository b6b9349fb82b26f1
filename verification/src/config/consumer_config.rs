//! The settings of the definition consumer.
use crate::error::{failure, Error, ErrorKind, ErrorView};
use cooplan_lapin_wrapper::config::amqp_connect_config::AmqpConnectConfig;
use vstd::prelude::*;

verus! {

/// How the consumer connects to the broker, how many dispatches it runs, how early it
/// renews its token and how many requests may wait at once.
#[derive(Clone)]
pub struct ConsumerConfig {
    amqp_connect_config: AmqpConnectConfig,
    concurrent_request_dispatch_instances: u16,
    token_expiration_margin_in_seconds: u64,
    request_boundary: usize,
}

/// The value of the settings.
pub struct ConsumerConfigView {
    pub amqp_connect_config: AmqpConnectConfig,
    pub concurrent_request_dispatch_instances: u16,
    pub token_expiration_margin_in_seconds: u64,
    pub request_boundary: usize,
}

impl View for ConsumerConfig {
    type V = ConsumerConfigView;

    closed spec fn view(&self) -> ConsumerConfigView {
        ConsumerConfigView {
            amqp_connect_config: self.amqp_connect_config,
            concurrent_request_dispatch_instances: self.concurrent_request_dispatch_instances,
            token_expiration_margin_in_seconds: self.token_expiration_margin_in_seconds,
            request_boundary: self.request_boundary,
        }
    }
}

impl ConsumerConfig {
    /// Settings made of the given values.
    pub fn new(
        amqp_connect_config: AmqpConnectConfig,
        concurrent_request_dispatch_instances: u16,
        token_expiration_margin_in_seconds: u64,
        request_boundary: usize,
    ) -> (config: ConsumerConfig)
        ensures
            config@ == (ConsumerConfigView {
                amqp_connect_config,
                concurrent_request_dispatch_instances,
                token_expiration_margin_in_seconds,
                request_boundary,
            }),
    {
        ConsumerConfig {
            amqp_connect_config,
            concurrent_request_dispatch_instances,
            token_expiration_margin_in_seconds,
            request_boundary,
        }
    }

    /// Gives up the settings for the broker connection.
    pub fn owned_amqp_connect_config(self) -> (connect_config: AmqpConnectConfig)
        ensures
            connect_config == self@.amqp_connect_config,
    {
        self.amqp_connect_config
    }

    /// How many dispatches run at once.
    pub fn concurrent_request_dispatch_instances(&self) -> (instances: u16)
        ensures
            instances == self@.concurrent_request_dispatch_instances,
    {
        self.concurrent_request_dispatch_instances
    }

    /// How many seconds before its expiry a token is renewed.
    pub fn token_expiration_margin_in_seconds(&self) -> (margin: u64)
        ensures
            margin == self@.token_expiration_margin_in_seconds,
    {
        self.token_expiration_margin_in_seconds
    }

    /// How many requests may wait at once.
    pub fn request_boundary(&self) -> (boundary: usize)
        ensures
            boundary == self@.request_boundary,
    {
        self.request_boundary
    }
}

/// The failure when the settings file cannot be read; `detail` says why.
pub fn config_read_failure(detail: &str) -> (error: Error)
    ensures
        error@ == (ErrorView {
            kind: ErrorKind::AutoConfigFailure,
            message: "failed to read config file: "@ + detail@,
        }),
{
    failure(ErrorKind::AutoConfigFailure, "failed to read config file: ", detail)
}

/// The failure when the settings file's content is not valid settings; `detail` says
/// why.
pub fn config_deserialize_failure(detail: &str) -> (error: Error)
    ensures
        error@ == (ErrorView {
            kind: ErrorKind::AutoConfigFailure,
            message: "failed to deserialize config file's content: "@ + detail@,
        }),
{
    failure(ErrorKind::AutoConfigFailure, "failed to deserialize config file's content: ", detail)
}

} // verus!
