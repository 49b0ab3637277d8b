[package]
name = "mteam_dashboard_action_processor"
version = "0.1.0"
edition = "2021"
publish = false

[dependencies]
chrono = "0.4"
csv = "1"
