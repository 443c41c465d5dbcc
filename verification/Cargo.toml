[package]
name = "rowdump"
version = "0.1.0"
edition = "2021"
publish = false

[dependencies]
color-eyre = "0.6"
ibm_db = "*"
