[package]
name = "apic"
version = "0.1.0"
edition = "2021"
publish = false

[dependencies]
raw-cpuid = "=11.6.0"
x86_64 = { version = "=0.15.5", default-features = false, features = ["instructions"] }
acpi = { version = "=5.2.0", default-features = false }
log = "=0.4.34"
spin = "=0.12.3"
lazy_static = "=1.5.1"
