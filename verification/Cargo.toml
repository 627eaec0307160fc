[package]
name = "survey_tool_cli"
version = "0.1.0"
edition = "2021"
publish = false

[dependencies]
clap = { version = "*", features = ["derive"] }
colored = "*"
jsonschema = { version = "*", default-features = false }
regex = "*"
serde_json = "*"
serde-saphyr = "*"
