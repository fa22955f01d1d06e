[package]
name = "libvirtdma"
version = "0.1.0"
edition = "2021"
publish = false

[dependencies]
byteorder = "1"
hex = "0.4"
memmem = "0.1"
regex = "1"
widestring = "*"
indexmap = "*"
itertools = "*"
libc = "0.2"
nix = { version = "*", features = ["ioctl", "fs"] }
proc-maps = "*"
term-table = "*"
linefeed = "*"
shlex = "*"
hexdump = "*"
dirs = "*"
colored = "*"
ctrlc = "*"
rouille = "*"
iced-x86 = { version = "*", default-features = false, features = ["std", "decoder", "intel"] }
dynasmrt = "*"
