[package]
name = "todo_list"
version = "0.1.0"
edition = "2021"
publish = false

[dependencies]
actix-web = "=4.15.0"
actix-files = "=0.7.0"
serde = { version = "=1.0.229", features = ["derive"] }
serde_derive = "=1.0.229"
seed = "=0.9.2"
