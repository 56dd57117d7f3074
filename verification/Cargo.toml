[package]
name = "ln_tip_bot"
version = "0.3.0"
edition = "2021"
publish = false

[dependencies]
lightning-invoice = "=0.34.1"
lnurl-rs = "=0.10.0"
tl = "=0.7.8"
qrcode-generator = "=4.1.9"
uuid = { version = "=1.27.0", features = ["v4"] }
rand = "=0.8.8"
chrono = "=0.4.45"
reqwest = { version = "*", default-features = false, features = ["rustls-tls", "json"] }
tokio = { version = "1", features = ["macros", "rt-multi-thread", "time"] }
serde = { version = "1", features = ["derive"] }
serde_json = "1"
clap = "4"
log = "*"
simple_logger = "*"
simple-error = "*"
url = "*"
wild = "*"
argfile = "*"
diesel = { version = "2", features = ["sqlite"] }
