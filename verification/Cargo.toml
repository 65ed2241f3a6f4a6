[package]
name = "acc_linker_bot"
version = "0.1.0"
edition = "2021"
publish = false

[dependencies]
chrono = "0.4"
uuid = { version = "1", features = ["v4"] }
reqwest = { version = "0.11", features = ["blocking"] }
serde = { version = "1", features = ["derive"] }
serde_json = "1"
config = "0.13"
diesel = { version = "2", features = ["sqlite"] }
log = "0.4"
log4rs = "1"
select = "0.6"
