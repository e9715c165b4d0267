[package]
name = "stem_material"
version = "0.1.0"
edition = "2021"
publish = false

[dependencies]
akima_spline = { version = "=0.1.7", features = ["serde"] }
argmin = "=0.10.0"
argmin-math = "=0.4.0"
deserialize_untagged_verbose_error = "=0.1.8"
dyn_quantity = { version = "=0.5.14", features = ["from_str", "serde", "uom"] }
lazy_static = "=1.5.1"
serde = { version = "=1.0.229", features = ["derive"] }
serde_mosaic = "=0.3.0"
typetag = "=0.2.23"
uom = "=0.36.0"
var_quantity = { version = "=0.4.0", features = ["from_str", "serde"] }
