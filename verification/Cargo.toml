[package]
name = "durable_timer"
version = "0.1.0"
edition = "2021"
publish = false

[dependencies]
candid = "0.10"
ic-cdk = "=0.18.7"
ic-cdk-macros = "=0.18.7"
ic-cdk-timers = "=0.12.3"
ic-stable-structures = "=0.6.9"
