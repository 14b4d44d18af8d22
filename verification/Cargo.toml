[package]
name = "tomu-hal"
version = "0.1.0"
edition = "2021"
publish = false

[dependencies]
cortex-m = "=0.7.10"
embedded-hal = "=0.2.7"
efm32hg309f64-pac = "=0.2.1"
