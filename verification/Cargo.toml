[package]
name = "distance_friend"
version = "0.1.0"
edition = "2021"
publish = false

[dependencies]
mqttrs = { version = "=0.4.1", default-features = false }
heapless = "=0.7.17"
cyw43 = "=0.7.0"
cyw43-pio = "=0.10.0"
defmt = "=1.2.0"
defmt-rtt = "=1.3.1"
embassy-executor = { version = "=0.10.0", features = ["platform-std", "executor-thread"] }
embassy-futures = "=0.1.2"
embassy-net = { version = "=0.9.1", features = ["tcp", "dns", "dhcpv4", "proto-ipv4", "medium-ethernet"] }
embassy-rp = { version = "=0.10.0", features = ["rp2040"] }
embassy-time = "=0.5.1"
embedded-graphics = "=0.8.2"
panic-probe = "=1.0.0"
ssd1306 = "=0.10.0"
static_cell = "=2.1.1"

[dev-dependencies]
postcard = "=1.1.3"
serde = { version = "=1.0.229", default-features = false }
