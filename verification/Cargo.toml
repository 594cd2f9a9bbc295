[package]
name = "tg2h"
version = "0.1.0"
edition = "2021"
publish = false

[dependencies]
gmi = "=0.2.1"
html-escape = "=0.2.15"
tokio = { version = "=1.53.2", features = ["macros", "rt-multi-thread", "signal"] }
warp = { version = "=0.4.3", features = ["server"] }
