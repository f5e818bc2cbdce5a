[package]
name = "quicrepl"
version = "0.1.0"
edition = "2021"
publish = false

[dependencies]
anyhow = "1"
bytes = "1"
clap = { version = "3", features = ["derive", "env"] }
ctrlc = "3"
dotenv = "0.15"
futures-util = "0.3"
quinn = "0.8"
rcgen = "0.9"
rustls = "0.20"
rustls-native-certs = "0.6"
rustls-pemfile = "1"
rustyline = "9"
tokio = { version = "1", features = ["full"] }
tracing = "0.1"
tracing-subscriber = "0.3"
