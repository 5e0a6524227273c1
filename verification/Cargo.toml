[package]
name = "libiguana"
version = "0.1.0"
edition = "2021"
publish = false

[dependencies]
thiserror = "=1.0.69"
unicorn-engine = "=2.1.5"
uniffi = "=0.28.3"
yaxpeax-arch = "=0.3.3"
yaxpeax-arm = "=0.5.0"
