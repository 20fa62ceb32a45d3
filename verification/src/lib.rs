//! Synchronisation planning for a concert-setlist archive.
//!
//! The library turns a parsed tree of setlists into the requests that bring a
//! remote store in line with it: which countries, cities, venues, artists,
//! songs, concerts, sets and performances to create, update or leave alone.
//! Every decision is a verified function from plain values to plain values;
//! the transport that carries the requests is the caller's business.

pub mod text;
pub mod slug;
pub mod setlists;
pub mod date;
pub mod distinct;
pub mod mpdb;
pub mod extract;
pub mod lookup;
pub mod plan;
pub mod stages;
pub mod songs;
pub mod concerts;
pub mod performances;
pub mod rerun;
pub mod pipeline;
pub mod endpoints;
pub mod dump;
pub mod cli;
