[package]
name = "attendance_payroll"
version = "0.1.0"
edition = "2021"
publish = false

[dependencies]
actix-web = "4"
async-trait = "0.1"
chrono = { version = "0.4", features = ["serde"] }
dotenvy = "0.15"
futures-util = "0.3"
jsonwebtoken = "9"
rand = "0.9"
sea-orm = { version = "1", default-features = false, features = ["macros", "with-chrono", "with-uuid", "with-json", "sqlx-postgres", "runtime-tokio-rustls"] }
sea-orm-migration = { version = "1", default-features = false, features = ["sqlx-postgres", "runtime-tokio-rustls"] }
serde = { version = "1", features = ["derive"] }
sha2 = "0.10"
thiserror = "1"
tracing = "0.1"
tracing-actix-web = "0.7"
tracing-subscriber = { version = "0.3", features = ["env-filter"] }
uuid = { version = "1", features = ["v4", "serde"] }
