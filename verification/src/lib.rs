//! exp-box: a local pentesting training platform. The library holds the
//! decisions of its services (gateway, auth service and training rooms);
//! the services' I/O runs around it.

pub mod api_error;
pub mod auth;
pub mod auth_service;
pub mod config;
pub mod digest;
pub mod headers;
pub mod ids;
pub mod json;
pub mod visitor;
pub mod passwords;
pub mod proxy;
pub mod rce_room;
pub mod room_actions;
pub mod room_registry;
pub mod rooms;
pub mod text;
pub mod xss_proxy;
pub mod xss_room;
