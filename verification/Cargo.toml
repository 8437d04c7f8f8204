[package]
name = "btor_facade"
version = "0.1.0"
edition = "2021"
publish = false

[dependencies]
logic-form = "=0.3.4"
