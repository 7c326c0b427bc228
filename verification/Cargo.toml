[package]
name = "samply_symbols"
version = "0.1.0"
edition = "2021"
publish = false

[dependencies]
pdb-addr2line = "*"
srcsrv = "*"
object = "*"
pe-unwind-info = "*"
debugid = "*"
msvc-demangler = "*"
memmap2 = "*"
framehop = "*"
