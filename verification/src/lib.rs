//! Core logic of a self-hosted authentication gateway: host-based routing,
//! access decisions, header handling, cookies, session timing and the HTML
//! pages of the admin interface.

pub mod access;
pub mod admin;
pub mod auth;
pub mod cli;
pub mod config;
pub mod error;
pub mod ext;
pub mod proxy;
pub mod store;
pub mod templates;
pub mod text;
pub mod websocket;
