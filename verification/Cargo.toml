[package]
name = "game_roster"
version = "0.1.0"
edition = "2021"
publish = false

[dependencies]
either = "=1.19.0"
log = "=0.4.34"
serenity = { version = "=0.6.4", default-features = false, features = ["default_native_tls"] }
typemap = "=0.3.3"
