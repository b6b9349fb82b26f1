[package]
name = "cooplan_definition_consumer"
version = "0.1.0"
edition = "2021"
publish = false

[dependencies]
async-channel = "=2.5.0"
cooplan-amqp-api-consumer = "=0.2.0"
cooplan-auth = "=0.1.4"
cooplan-definitions-lib = "=0.1.6"
cooplan-lapin-wrapper = "=0.5.0"
cooplan-state-tracker = "=0.2.0"
lapin = "=2.5.5"
log = "=0.4.35"
serde = { version = "=1.0.229", features = ["derive"] }
serde_json = "=1.0.154"
tokio = { version = "=1.54.1", features = ["full"] }
