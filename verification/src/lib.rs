//! Library core of a self-hostable Binary Ninja WARP server.


pub mod text;
pub mod models;
pub mod error;
pub mod auth;
pub mod db;
pub mod config;
pub mod middleware;
pub mod cli;
pub mod bootstrap;
pub mod handlers;
