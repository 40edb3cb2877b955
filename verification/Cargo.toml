[package]
name = "dcim_sort"
version = "0.1.0"
edition = "2021"
publish = false

[dependencies]
md-5 = "*"
sha2 = "*"
regex = "*"
chrono = "*"
clap = "*"
minidom = "*"
kamadak-exif = "*"
rexiv2 = "*"
