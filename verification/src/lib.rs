//! A small command-dispatch facade: a greeter that embeds a caller-supplied
//! name in a fixed template, and a lookup of the host platform's
//! per-application data directory with a single typed error kind.

pub mod data_dir;
pub mod greeting;
