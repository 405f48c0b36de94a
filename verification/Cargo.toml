[package]
name = "steal_stickers_bot"
version = "0.1.0"
edition = "2021"
publish = false

[dependencies]
async-trait = "=0.1.92"
chrono = { version = "=0.4.45", default-features = false, features = ["now"] }
clap = { version = "=4.6.7", default-features = false, features = ["derive", "error-context", "help", "std", "usage"] }
grammers-client = "=0.10.0"
grammers-session = "=0.10.0"
grammers-tl-types = "=0.10.0"
random-string = "=1.1.0"
sea-query = { version = "=0.32.7", default-features = false, features = ["backend-postgres"] }
sea-query-binder = { version = "=0.7.0", features = ["sqlx-postgres"] }
serde = { version = "=1.0.229", features = ["derive"] }
sqlx = { version = "=0.8.6", default-features = false, features = ["postgres", "runtime-tokio", "time"] }
telers = "=1.0.0-beta.10"
thiserror = "=1.0.69"
tokio = { version = "=1.54.1", features = ["macros", "rt", "sync", "time"] }
toml = { version = "=0.8.23", default-features = false, features = ["parse"] }
tracing = "=0.1.44"
tracing-subscriber = { version = "0.3", default-features = false, features = ["env-filter", "fmt", "registry", "std"] }
