[package]
name = "xcode_discord_rpc"
version = "0.1.0"
edition = "2021"
publish = false

[dependencies]
discord-rich-presence = "0.2"
log = "0.4"
