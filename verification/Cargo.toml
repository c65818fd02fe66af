[package]
name = "crud_routers"
version = "0.1.0"
edition = "2021"
publish = false

[dependencies]
utoipa = "5"
serde = { version = "1", features = ["derive"] }
serde_json = "1"
tokio = { version = "1", features = ["sync", "rt", "net", "macros"] }
axum = "0.7"
actix-web = "4"
diesel = { version = "2", default-features = false }
sea-orm = { version = "1", default-features = false, features = ["with-json"] }
reqwest = { version = "0.12", default-features = false }
mime = "0.3"
