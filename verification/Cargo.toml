[package]
name = "axum_sass_template"
version = "0.1.0"
edition = "2021"
publish = false

[dependencies]
password-auth = "*"
uuid = { version = "*", features = ["v4"] }
secrecy = "*"
axum = "*"
axum-messages = "*"
tower-sessions = "*"
serde = { version = "*", features = ["derive"] }
tokio = { version = "*", features = ["rt-multi-thread", "macros", "net"] }
tera = { version = "*", default-features = false }
sqlx = { version = "*", default-features = false, features = ["postgres", "runtime-tokio", "uuid"] }
anyhow = "*"
tower = "*"
tower-http = { version = "*", features = ["fs", "trace"] }
dotenv = "*"
grass = { version = "*", default-features = false }
lettre = { version = "*", default-features = false, features = ["builder", "smtp-transport"] }
fake = "*"
