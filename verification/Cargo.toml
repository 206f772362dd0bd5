[package]
name = "opsgenie_notifier"
version = "0.1.0"
edition = "2021"
publish = false

[dependencies]
chrono = "=0.4.45"
clap = { version = "=4.6.7", features = ["cargo"] }
color-eyre = "=0.6.5"
fern = "=0.7.1"
log = "=0.4.34"
notify-rust = "=4.18.2"
opsgenie-rs = "=0.1.0-alpha.2"
tokio = { version = "=1.54.1", features = ["macros", "rt-multi-thread", "signal", "time"] }
url = "=2.5.8"
