[package]
name = "rm_document"
version = "0.1.0"
edition = "2021"
publish = false

[dependencies]
printpdf = { version = "0.5", features = ["svg"] }
rm-lines = "*"
serde = { version = "1", features = ["derive"] }
serde_json = "1"
thiserror = "1"
uuid = "1"
