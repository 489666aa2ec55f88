[package]
name = "operating_system"
version = "0.1.0"
edition = "2021"
publish = false

[dependencies]
pc-keyboard = "=0.5.1"
x86_64 = "0.15"
spin = "=0.9.9"
uart_16550 = "0.3"
volatile = "=0.2.7"
