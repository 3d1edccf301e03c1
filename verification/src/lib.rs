//! A multi-threaded directory crawler: the scaling policy of its worker pool,
//! the routing of crawled entries, and the bookkeeping around its channels.

pub mod constants;
pub mod scheduler;
pub mod resource;
pub mod channel;
pub mod haslen;
pub mod pool;
pub mod fileresource;
pub mod crawler;
