[package]
name = "rusty_zechub"
version = "0.1.0"
edition = "2021"
publish = false

[dependencies]
bip0039 = "*"
clearscreen = "*"
curl = "*"
dialoguer = "*"
serde = { version = "1", features = ["derive"] }
serde_json = "1"
