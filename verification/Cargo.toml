[package]
name = "early_boot_config"
version = "0.1.0"
edition = "2021"
publish = false

[dependencies]
async-trait = "=0.1.92"
duct = "=0.13.7"
flate2 = "=1.1.10"
log = "0.4"
serde_json = "=1.0.154"
snafu = "=0.7.5"
toml = "=0.8.23"
url = "=2.5.8"
