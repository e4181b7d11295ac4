[package]
name = "hkdfguard"
version = "0.1.0"
edition = "2021"
publish = false

[dependencies]
aes-gcm = { version = "0.10", features = ["zeroize"] }
base64 = "0.22"
cryptoki = "0.6"
dirs = "5"
elliptic-curve = { version = "0.13", features = ["ecdh", "pkcs8", "sec1"] }
hkdf = "0.12"
libc = "0.2"
log = "0.4"
p256 = { version = "0.13", features = ["ecdh", "pkcs8"] }
rand_core = { version = "0.6", features = ["getrandom", "std"] }
sha2 = "0.10"
tss-esapi = "7"
zeroize = "1"
