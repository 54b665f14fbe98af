[package]
name = "thread_local_scope"
version = "0.1.0"
edition = "2021"

[dependencies]
static_assertions = "1.1"
