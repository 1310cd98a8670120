[package]
name = "bandage"
version = "0.1.0"
edition = "2021"
publish = false

[dependencies]
axum = "*"
bincode = "1"
byte-unit = "*"
csv = "1"
dotenvy = "*"
geojson = "*"
hyper = "1"
hyper-util = { version = "*", features = ["client-legacy"] }
image = { version = "*", default-features = false }
jiff = "*"
nom = "*"
oauth2 = { version = "*", default-features = false, features = ["reqwest"] }
plotters = { version = "*", default-features = false }
plotters-bitmap = "*"
reqwest = { version = "*", default-features = false }
serde = "1"
serde_json = "1"
shapefile = "*"
sqlx = { version = "*", default-features = false, features = ["migrate"] }
tiberius = { version = "*", default-features = false }
tracing-subscriber = "*"
url = "2"
uuid = "1"
