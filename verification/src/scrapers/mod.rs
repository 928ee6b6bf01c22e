//! Harvesters, one for each catalogue site.

pub mod douban;
