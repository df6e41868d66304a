[package]
name = "firestore_structured_query"
version = "0.1.0"
edition = "2021"
publish = false

[dependencies]
googleapis-tonic-google-firestore-v1 = "=0.34.0"
serde = "1"
serde-firestore-value = "=0.28.0"

[dev-dependencies]
prost = "0.14"
