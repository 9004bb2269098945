[package]
name = "desnark"
version = "0.1.0"
edition = "2021"
publish = false

[dependencies]
ark-ff = "0.4"
ark-ec = "0.4"
ark-poly = "0.4"
ark-serialize = "0.4"
ark-std = "0.4"
ark-bls12-381 = "0.4"
merlin = "3"
displaydoc = "0.2"
