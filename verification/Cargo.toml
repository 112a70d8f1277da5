[package]
name = "gh_workflow_parser"
version = "0.1.0"
edition = "2021"
publish = false

[dependencies]
bzip2 = "0.4"
clap = { version = "4", features = ["derive"] }
clap_complete = "4"
distance = "0.4"
log = "0.4"
regex = "1"
semver = "1"
serde = { version = "1", features = ["derive"] }
serde_json = "1"
stderrlog = "0.6"
strum = { version = "0.26", features = ["derive"] }
which = "6"
