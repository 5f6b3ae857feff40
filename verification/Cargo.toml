[package]
name = "portal_session"
version = "0.1.0"
edition = "2021"
publish = false

[dependencies]
zbus = "1"
zvariant = "2"
futures-lite = "1"
