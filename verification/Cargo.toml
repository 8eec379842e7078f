[package]
name = "placepix"
version = "0.1.0"
edition = "2021"
publish = false

[dependencies]
image = { version = "0.24", default-features = false, features = ["jpeg"] }
actix-web = { version = "4", default-features = false, features = ["macros"] }
actix-files = "0.6"
serde = { version = "1", features = ["derive"] }
