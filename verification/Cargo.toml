[package]
name = "geos"
version = "0.1.0"
edition = "2021"
publish = false

[dependencies]
semver = "1"
geo-types = "0.7"
geojson = "*"
wkt = "*"
