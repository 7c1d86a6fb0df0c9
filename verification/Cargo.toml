[package]
name = "census_areas"
version = "0.1.0"
edition = "2021"
publish = false

[dependencies]
shapefile = "=0.9.0"
geo-types = "=0.7.20"
polylabel = "=3.3.0"
plotters = { version = "=0.3.7", default-features = false, features = ["bitmap_backend", "bitmap_encoder", "ab_glyph"] }
