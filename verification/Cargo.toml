[package]
name = "command_handler"
version = "0.1.0"
edition = "2021"
publish = false

[dependencies]
rand = "=0.10.3"
log = "=0.4.34"
env_logger = "=0.11.11"
serde = { version = "=1.0.229", features = ["derive"] }
apache-avro = "=0.22.0"
kafka = "=0.10.0"
rdkafka = "=0.39.0"
futures = "=0.3.34"
schema_registry_converter = { version = "=5.0.0", features = ["avro", "blocking"] }
openssl = "=0.10.81"
