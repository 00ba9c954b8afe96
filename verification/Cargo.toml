[package]
name = "measure_home_env_fs"
version = "0.2.0"
edition = "2021"
publish = false

[dependencies]
chrono = "0.4"
bme280 = "0.2"
linux-embedded-hal = "0.3"
clap = "2"
hyper = "0.10"
hyper-native-tls = "0.3"
yup-oauth2 = "1"
google-firestore1_beta1 = "1"
