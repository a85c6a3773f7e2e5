[package]
name = "vkldap"
version = "1.0.0-rc1"
edition = "2021"
publish = false

[dependencies]
url = "2"
ldap3 = "0.11"
tokio = { version = "1", features = ["rt-multi-thread", "sync", "time", "macros"] }
futures = "0.3"
native-tls = "0.2"
log = "0.4"
lazy_static = "1"
