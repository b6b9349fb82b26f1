pub mod definition_provider_consumer;
pub mod definition_request_dispatch;
pub mod elements;
pub mod init;
