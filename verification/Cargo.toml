[package]
name = "interrupts"
version = "0.1.0"
edition = "2021"
publish = false

[dependencies]
lazy_static = { version = "=1.5.1", features = ["spin_no_std"] }
pc-keyboard = "=0.5.1"
pic8259_simple = "=0.2.0"
spin = "=0.5.2"
x86_64 = { version = "=0.15.5", default-features = false, features = ["instructions"] }
