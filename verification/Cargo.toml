[package]
name = "inferno"
version = "0.1.0"
edition = "2021"
publish = false

[dependencies]
ammonia = "4"
askama = "*"
axum = "0.8"
base16 = "0.2"
chrono = "0.4"
clap = { version = "4", features = ["derive"] }
color-eyre = "0.6"
cookie = "0.18"
diff-match-patch-rs = "*"
dotenv = "0.15"
eyre = "0.6"
figment = { version = "0.10", features = ["env", "toml"] }
http = "1"
jsonwebtoken = "9"
pulldown-cmark = "0.13"
pulldown-cmark-escape = "*"
rand = "0.8"
regex = "1"
serde = { version = "1", features = ["derive"] }
sha2 = "0.10"
sqlx = { version = "0.8", features = ["postgres", "runtime-tokio", "migrate"] }
tokio = { version = "1", features = ["macros", "rt-multi-thread", "net"] }
tower-http = { version = "0.6", features = ["fs", "trace"] }
tracing = "0.1"
tracing-error = "0.2"
tracing-subscriber = { version = "0.3", features = ["env-filter"] }
