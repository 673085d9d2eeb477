[package]
name = "pd_worker"
version = "0.1.0"
edition = "2021"
publish = false

[dependencies]
clap = "2"
fs2 = "0.4"
futures = "0.1"
grpcio = "*"
protobuf = "2"
rocksdb = "*"
tokio-core = "0.1"
