[package]
name = "qbx"
version = "0.1.0"
edition = "2021"
publish = false

[dependencies]
bootloader = { version = "=0.9.35", features = ["map_physical_memory"] }
x86_64 = { version = "=0.15.5", default-features = false, features = ["instructions"] }
spin = "=0.9.9"
pc-keyboard = "=0.7.0"
pic8259 = { version = "=0.11.0", default-features = false, features = ["stable"] }
volatile = "=0.2.7"
lazy_static = { version = "=1.5.1", features = ["spin_no_std"] }
linked_list_allocator = "=0.10.6"
