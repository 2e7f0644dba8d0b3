[package]
name = "codeq"
version = "0.1.0"
edition = "2021"
publish = false

[dependencies]
anyhow = "1"
byteorder = "1"
crc32fast = "1"
crc64fast-nvme = "1"
derive_more = { version = "1", features = ["add", "add_assign", "display", "from"] }
serde = { version = "1", features = ["derive"] }
