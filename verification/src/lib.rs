use vstd::prelude::*;

pub mod announce;
pub mod bytes;
pub mod client_ip;
pub mod collections;
pub mod config;
pub mod connectivity;
pub mod counts;
pub mod error;
pub mod group;
pub mod handler;
pub mod lists;
pub mod number;
pub mod peer;
pub mod peer_list;
pub mod rate_limit;
pub mod reap;
pub mod response;
pub mod scheduler;
pub mod torrent;
pub mod user;
pub mod utils;
pub mod warning;
