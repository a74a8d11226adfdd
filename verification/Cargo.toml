[package]
name = "deck_session"
version = "0.1.0"
edition = "2021"
publish = false

[dependencies]
elgato-streamdeck = "*"
image = "*"
tracing = "*"
tracing-subscriber = "*"
